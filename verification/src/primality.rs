//! The group order is prime. Every prime below is shown to be one by the
//! powers of a number modulo it, and by prime factors of the prime less one,
//! which are shown to be primes in the same way, down to 2.

use vstd::prelude::*;
use crate::field::group_order;
use crate::modular::is_prime;
use crate::primes::{
    lemma_certified_again, lemma_certified_factor, lemma_certified_start, lemma_criterion,
    lemma_criterion_large_factor, lemma_power_step, lemma_power_zero, power_mod,
};

verus! {

/// 2 is prime.
proof fn lemma_prime_2()
    ensures
        is_prime(2),
{
}

/// `p = 3` is prime: `q = 2` is a prime above the square root of `p` that
/// divides `p - 1`, 2 to the power `p - 1` is one modulo `p`, and 2 to the
/// power `(p - 1) / q`, less one, has an inverse modulo `p`.
proof fn lemma_prime_3()
    ensures
        is_prime(3),
{
    lemma_prime_2();
    lemma_power_zero(2, 3);
    lemma_power_step(2, 3, 0, 1, 1, 2);
    lemma_power_step(2, 3, 1, 2, 0, 1);
    lemma_power_step(2, 3, 0, 1, 1, 2);
    lemma_criterion_large_factor(3, 2, 2, 2, 1);
}

/// `p = 5` is prime: 2 has the order `p - 1` modulo `p`.
proof fn lemma_prime_5()
    ensures
        is_prime(5),
{
    lemma_prime_2();
    lemma_power_zero(2, 5);
    lemma_power_step(2, 5, 0, 1, 1, 2);
    lemma_power_step(2, 5, 1, 2, 0, 4);
    lemma_power_step(2, 5, 2, 4, 0, 1);
    lemma_power_step(2, 5, 0, 1, 1, 2);
    lemma_power_step(2, 5, 1, 2, 0, 4);
    lemma_certified_start(5, 2);
    lemma_certified_factor(5, 2, 1, Seq::empty(), 2);
    lemma_certified_again(5, 2, 2, Seq::empty().push(2), 2);
    lemma_criterion(5, 2, Seq::empty().push(2));
}

/// `p = 7` is prime: `q = 3` is a prime above the square root of `p` that
/// divides `p - 1`, 2 to the power `p - 1` is one modulo `p`, and 2 to the
/// power `(p - 1) / q`, less one, has an inverse modulo `p`.
proof fn lemma_prime_7()
    ensures
        is_prime(7),
{
    lemma_prime_3();
    lemma_power_zero(2, 7);
    lemma_power_step(2, 7, 0, 1, 1, 2);
    lemma_power_step(2, 7, 1, 2, 1, 1);
    lemma_power_step(2, 7, 3, 1, 0, 1);
    lemma_power_step(2, 7, 0, 1, 1, 2);
    lemma_power_step(2, 7, 1, 2, 0, 4);
    lemma_criterion_large_factor(7, 2, 3, 4, 5);
}

/// `p = 11` is prime: `q = 5` is a prime above the square root of `p` that
/// divides `p - 1`, 2 to the power `p - 1` is one modulo `p`, and 2 to the
/// power `(p - 1) / q`, less one, has an inverse modulo `p`.
proof fn lemma_prime_11()
    ensures
        is_prime(11),
{
    lemma_prime_5();
    lemma_power_zero(2, 11);
    lemma_power_step(2, 11, 0, 1, 1, 2);
    lemma_power_step(2, 11, 1, 2, 0, 4);
    lemma_power_step(2, 11, 2, 4, 1, 10);
    lemma_power_step(2, 11, 5, 10, 0, 1);
    lemma_power_step(2, 11, 0, 1, 1, 2);
    lemma_power_step(2, 11, 1, 2, 0, 4);
    lemma_criterion_large_factor(11, 2, 5, 4, 4);
}

/// `p = 17` is prime: 3 has the order `p - 1` modulo `p`.
proof fn lemma_prime_17()
    ensures
        is_prime(17),
{
    lemma_prime_2();
    lemma_power_zero(3, 17);
    lemma_power_step(3, 17, 0, 1, 1, 3);
    lemma_power_step(3, 17, 1, 3, 0, 9);
    lemma_power_step(3, 17, 2, 9, 0, 13);
    lemma_power_step(3, 17, 4, 13, 0, 16);
    lemma_power_step(3, 17, 8, 16, 0, 1);
    lemma_power_step(3, 17, 0, 1, 1, 3);
    lemma_power_step(3, 17, 1, 3, 0, 9);
    lemma_power_step(3, 17, 2, 9, 0, 13);
    lemma_power_step(3, 17, 4, 13, 0, 16);
    lemma_certified_start(17, 3);
    lemma_certified_factor(17, 3, 1, Seq::empty(), 2);
    lemma_certified_again(17, 3, 2, Seq::empty().push(2), 2);
    lemma_certified_again(17, 3, 4, Seq::empty().push(2), 2);
    lemma_certified_again(17, 3, 8, Seq::empty().push(2), 2);
    lemma_criterion(17, 3, Seq::empty().push(2));
}

/// `p = 23` is prime: `q = 11` is a prime above the square root of `p` that
/// divides `p - 1`, 2 to the power `p - 1` is one modulo `p`, and 2 to the
/// power `(p - 1) / q`, less one, has an inverse modulo `p`.
proof fn lemma_prime_23()
    ensures
        is_prime(23),
{
    lemma_prime_11();
    lemma_power_zero(2, 23);
    lemma_power_step(2, 23, 0, 1, 1, 2);
    lemma_power_step(2, 23, 1, 2, 0, 4);
    lemma_power_step(2, 23, 2, 4, 1, 9);
    lemma_power_step(2, 23, 5, 9, 1, 1);
    lemma_power_step(2, 23, 11, 1, 0, 1);
    lemma_power_step(2, 23, 0, 1, 1, 2);
    lemma_power_step(2, 23, 1, 2, 0, 4);
    lemma_criterion_large_factor(23, 2, 11, 4, 8);
}

/// `p = 73` is prime: 5 has the order `p - 1` modulo `p`.
proof fn lemma_prime_73()
    ensures
        is_prime(73),
{
    lemma_prime_2();
    lemma_prime_3();
    lemma_power_zero(5, 73);
    lemma_power_step(5, 73, 0, 1, 1, 5);
    lemma_power_step(5, 73, 1, 5, 0, 25);
    lemma_power_step(5, 73, 2, 25, 0, 41);
    lemma_power_step(5, 73, 4, 41, 1, 10);
    lemma_power_step(5, 73, 9, 10, 0, 27);
    lemma_power_step(5, 73, 18, 27, 0, 72);
    lemma_power_step(5, 73, 36, 72, 0, 1);
    lemma_power_step(5, 73, 0, 1, 1, 5);
    lemma_power_step(5, 73, 1, 5, 0, 25);
    lemma_power_step(5, 73, 2, 25, 0, 41);
    lemma_power_step(5, 73, 4, 41, 1, 10);
    lemma_power_step(5, 73, 9, 10, 0, 27);
    lemma_power_step(5, 73, 18, 27, 0, 72);
    lemma_power_step(5, 73, 0, 1, 1, 5);
    lemma_power_step(5, 73, 1, 5, 1, 52);
    lemma_power_step(5, 73, 3, 52, 0, 3);
    lemma_power_step(5, 73, 6, 3, 0, 9);
    lemma_power_step(5, 73, 12, 9, 0, 8);
    lemma_certified_start(73, 5);
    lemma_certified_factor(73, 5, 1, Seq::empty(), 2);
    lemma_certified_again(73, 5, 2, Seq::empty().push(2), 2);
    lemma_certified_again(73, 5, 4, Seq::empty().push(2), 2);
    lemma_certified_factor(73, 5, 8, Seq::empty().push(2), 3);
    lemma_certified_again(73, 5, 24, Seq::empty().push(2).push(3), 3);
    lemma_criterion(73, 5, Seq::empty().push(2).push(3));
}

/// `p = 2551` is prime: 6 has the order `p - 1` modulo `p`.
proof fn lemma_prime_2551()
    ensures
        is_prime(2551),
{
    lemma_prime_2();
    lemma_prime_3();
    lemma_prime_5();
    lemma_prime_17();
    lemma_power_zero(6, 2551);
    lemma_power_step(6, 2551, 0, 1, 1, 6);
    lemma_power_step(6, 2551, 1, 6, 0, 36);
    lemma_power_step(6, 2551, 2, 36, 0, 1296);
    lemma_power_step(6, 2551, 4, 1296, 1, 1246);
    lemma_power_step(6, 2551, 9, 1246, 1, 1395);
    lemma_power_step(6, 2551, 19, 1395, 1, 223);
    lemma_power_step(6, 2551, 39, 223, 1, 2458);
    lemma_power_step(6, 2551, 79, 2458, 1, 874);
    lemma_power_step(6, 2551, 159, 874, 0, 1127);
    lemma_power_step(6, 2551, 318, 1127, 1, 937);
    lemma_power_step(6, 2551, 637, 937, 1, 2550);
    lemma_power_step(6, 2551, 1275, 2550, 0, 1);
    lemma_power_step(6, 2551, 0, 1, 1, 6);
    lemma_power_step(6, 2551, 1, 6, 0, 36);
    lemma_power_step(6, 2551, 2, 36, 0, 1296);
    lemma_power_step(6, 2551, 4, 1296, 1, 1246);
    lemma_power_step(6, 2551, 9, 1246, 1, 1395);
    lemma_power_step(6, 2551, 19, 1395, 1, 223);
    lemma_power_step(6, 2551, 39, 223, 1, 2458);
    lemma_power_step(6, 2551, 79, 2458, 1, 874);
    lemma_power_step(6, 2551, 159, 874, 0, 1127);
    lemma_power_step(6, 2551, 318, 1127, 1, 937);
    lemma_power_step(6, 2551, 637, 937, 1, 2550);
    lemma_power_step(6, 2551, 0, 1, 1, 6);
    lemma_power_step(6, 2551, 1, 6, 1, 216);
    lemma_power_step(6, 2551, 3, 216, 0, 738);
    lemma_power_step(6, 2551, 6, 738, 1, 33);
    lemma_power_step(6, 2551, 13, 33, 0, 1089);
    lemma_power_step(6, 2551, 26, 1089, 1, 787);
    lemma_power_step(6, 2551, 53, 787, 0, 2027);
    lemma_power_step(6, 2551, 106, 2027, 0, 1619);
    lemma_power_step(6, 2551, 212, 1619, 1, 51);
    lemma_power_step(6, 2551, 425, 51, 0, 50);
    lemma_power_step(6, 2551, 0, 1, 1, 6);
    lemma_power_step(6, 2551, 1, 6, 1, 216);
    lemma_power_step(6, 2551, 3, 216, 1, 1877);
    lemma_power_step(6, 2551, 7, 1877, 1, 1188);
    lemma_power_step(6, 2551, 15, 1188, 1, 1295);
    lemma_power_step(6, 2551, 31, 1295, 1, 1006);
    lemma_power_step(6, 2551, 63, 1006, 1, 836);
    lemma_power_step(6, 2551, 127, 836, 1, 2083);
    lemma_power_step(6, 2551, 255, 2083, 0, 2189);
    lemma_power_step(6, 2551, 0, 1, 1, 6);
    lemma_power_step(6, 2551, 1, 6, 0, 36);
    lemma_power_step(6, 2551, 2, 36, 0, 1296);
    lemma_power_step(6, 2551, 4, 1296, 1, 1246);
    lemma_power_step(6, 2551, 9, 1246, 0, 1508);
    lemma_power_step(6, 2551, 18, 1508, 1, 1636);
    lemma_power_step(6, 2551, 37, 1636, 1, 431);
    lemma_power_step(6, 2551, 75, 431, 0, 2089);
    lemma_certified_start(2551, 6);
    lemma_certified_factor(2551, 6, 1, Seq::empty(), 2);
    lemma_certified_factor(2551, 6, 2, Seq::empty().push(2), 3);
    lemma_certified_factor(2551, 6, 6, Seq::empty().push(2).push(3), 5);
    lemma_certified_again(2551, 6, 30, Seq::empty().push(2).push(3).push(5), 5);
    lemma_certified_factor(2551, 6, 150, Seq::empty().push(2).push(3).push(5), 17);
    lemma_criterion(2551, 6, Seq::empty().push(2).push(3).push(5).push(17));
}

/// `p = 3797` is prime: `q = 73` is a prime above the square root of `p` that
/// divides `p - 1`, 2 to the power `p - 1` is one modulo `p`, and 2 to the
/// power `(p - 1) / q`, less one, has an inverse modulo `p`.
proof fn lemma_prime_3797()
    ensures
        is_prime(3797),
{
    lemma_prime_73();
    lemma_power_zero(2, 3797);
    lemma_power_step(2, 3797, 0, 1, 1, 2);
    lemma_power_step(2, 3797, 1, 2, 1, 8);
    lemma_power_step(2, 3797, 3, 8, 1, 128);
    lemma_power_step(2, 3797, 7, 128, 0, 1196);
    lemma_power_step(2, 3797, 14, 1196, 1, 1691);
    lemma_power_step(2, 3797, 29, 1691, 1, 680);
    lemma_power_step(2, 3797, 59, 680, 0, 2963);
    lemma_power_step(2, 3797, 118, 2963, 1, 1410);
    lemma_power_step(2, 3797, 237, 1410, 0, 2269);
    lemma_power_step(2, 3797, 474, 2269, 1, 3055);
    lemma_power_step(2, 3797, 949, 3055, 0, 3796);
    lemma_power_step(2, 3797, 1898, 3796, 0, 1);
    lemma_power_step(2, 3797, 0, 1, 1, 2);
    lemma_power_step(2, 3797, 1, 2, 1, 8);
    lemma_power_step(2, 3797, 3, 8, 0, 64);
    lemma_power_step(2, 3797, 6, 64, 1, 598);
    lemma_power_step(2, 3797, 13, 598, 0, 686);
    lemma_power_step(2, 3797, 26, 686, 0, 3565);
    lemma_criterion_large_factor(3797, 2, 73, 3565, 3357);
}

/// `p = 531581` is prime: `q = 3797` is a prime above the square root of `p`
/// that divides `p - 1`, 2 to the power `p - 1` is one modulo `p`, and 2 to
/// the power `(p - 1) / q`, less one, has an inverse modulo `p`.
proof fn lemma_prime_531581()
    ensures
        is_prime(531581),
{
    lemma_prime_3797();
    lemma_power_zero(2, 531581);
    lemma_power_step(2, 531581, 0, 1, 1, 2);
    lemma_power_step(2, 531581, 1, 2, 0, 4);
    lemma_power_step(2, 531581, 2, 4, 0, 16);
    lemma_power_step(2, 531581, 4, 16, 0, 256);
    lemma_power_step(2, 531581, 8, 256, 0, 65536);
    lemma_power_step(2, 531581, 16, 65536, 0, 324397);
    lemma_power_step(2, 531581, 32, 324397, 0, 44106);
    lemma_power_step(2, 531581, 64, 44106, 1, 37133);
    lemma_power_step(2, 531581, 129, 37133, 1, 408731);
    lemma_power_step(2, 531581, 259, 408731, 1, 12658);
    lemma_power_step(2, 531581, 519, 12658, 0, 219083);
    lemma_power_step(2, 531581, 1038, 219083, 0, 380818);
    lemma_power_step(2, 531581, 2076, 380818, 0, 141771);
    lemma_power_step(2, 531581, 4152, 141771, 1, 409243);
    lemma_power_step(2, 531581, 8305, 409243, 1, 377959);
    lemma_power_step(2, 531581, 16611, 377959, 1, 360778);
    lemma_power_step(2, 531581, 33223, 360778, 1, 467477);
    lemma_power_step(2, 531581, 66447, 467477, 1, 403372);
    lemma_power_step(2, 531581, 132895, 403372, 0, 531580);
    lemma_power_step(2, 531581, 265790, 531580, 0, 1);
    lemma_power_step(2, 531581, 0, 1, 1, 2);
    lemma_power_step(2, 531581, 1, 2, 0, 4);
    lemma_power_step(2, 531581, 2, 4, 0, 16);
    lemma_power_step(2, 531581, 4, 16, 0, 256);
    lemma_power_step(2, 531581, 8, 256, 1, 131072);
    lemma_power_step(2, 531581, 17, 131072, 1, 468852);
    lemma_power_step(2, 531581, 35, 468852, 0, 164879);
    lemma_power_step(2, 531581, 70, 164879, 0, 32301);
    lemma_criterion_large_factor(531581, 2, 3797, 32301, 50673);
}

/// `p = 1224481` is prime: `q = 2551` is a prime above the square root of `p`
/// that divides `p - 1`, 2 to the power `p - 1` is one modulo `p`, and 2 to
/// the power `(p - 1) / q`, less one, has an inverse modulo `p`.
proof fn lemma_prime_1224481()
    ensures
        is_prime(1224481),
{
    lemma_prime_2551();
    lemma_power_zero(2, 1224481);
    lemma_power_step(2, 1224481, 0, 1, 1, 2);
    lemma_power_step(2, 1224481, 1, 2, 0, 4);
    lemma_power_step(2, 1224481, 2, 4, 0, 16);
    lemma_power_step(2, 1224481, 4, 16, 1, 512);
    lemma_power_step(2, 1224481, 9, 512, 0, 262144);
    lemma_power_step(2, 1224481, 18, 262144, 1, 757070);
    lemma_power_step(2, 1224481, 37, 757070, 0, 1142901);
    lemma_power_step(2, 1224481, 74, 1142901, 1, 484330);
    lemma_power_step(2, 1224481, 149, 484330, 0, 499249);
    lemma_power_step(2, 1224481, 298, 499249, 1, 668092);
    lemma_power_step(2, 1224481, 597, 668092, 1, 661650);
    lemma_power_step(2, 1224481, 1195, 661650, 1, 1203874);
    lemma_power_step(2, 1224481, 2391, 1203874, 1, 731565);
    lemma_power_step(2, 1224481, 4783, 731565, 0, 989593);
    lemma_power_step(2, 1224481, 9566, 989593, 0, 932127);
    lemma_power_step(2, 1224481, 19132, 932127, 1, 501589);
    lemma_power_step(2, 1224481, 38265, 501589, 0, 1087294);
    lemma_power_step(2, 1224481, 76530, 1087294, 0, 1224480);
    lemma_power_step(2, 1224481, 153060, 1224480, 0, 1);
    lemma_power_step(2, 1224481, 306120, 1, 0, 1);
    lemma_power_step(2, 1224481, 612240, 1, 0, 1);
    lemma_power_step(2, 1224481, 0, 1, 1, 2);
    lemma_power_step(2, 1224481, 1, 2, 1, 8);
    lemma_power_step(2, 1224481, 3, 8, 1, 128);
    lemma_power_step(2, 1224481, 7, 128, 1, 32768);
    lemma_power_step(2, 1224481, 15, 32768, 0, 1096468);
    lemma_power_step(2, 1224481, 30, 1096468, 0, 98946);
    lemma_power_step(2, 1224481, 60, 98946, 0, 585321);
    lemma_power_step(2, 1224481, 120, 585321, 0, 685089);
    lemma_power_step(2, 1224481, 240, 685089, 0, 921659);
    lemma_criterion_large_factor(1224481, 2, 2551, 921659, 1100631);
}

/// A power of 2 modulo `p = 1257559732178653`.
proof fn lemma_power_1()
    ensures
        power_mod(2, 0x8ef7ce23d9dbnat, 0x477be711eceddnat) == 0x2f598fde66498int,
{
    lemma_power_zero(2, 0x477be711eceddnat);
    lemma_power_step(2, 0x477be711eceddnat, 0, 1, 1, 2);
    lemma_power_step(2, 0x477be711eceddnat, 1, 2, 0, 4);
    lemma_power_step(2, 0x477be711eceddnat, 2, 4, 0, 16);
    lemma_power_step(2, 0x477be711eceddnat, 4, 16, 0, 256);
    lemma_power_step(2, 0x477be711eceddnat, 8, 256, 1, 131072);
    lemma_power_step(2, 0x477be711eceddnat, 17, 131072, 1, 0x800000000int);
    lemma_power_step(2, 0x477be711eceddnat, 35, 0x800000000int, 1, 0x1718ef43864e5int);
    lemma_power_step(2, 0x477be711eceddnat, 71, 0x1718ef43864e5int, 0, 0x2e192ec8bd183int);
    lemma_power_step(2, 0x477be711eceddnat, 142, 0x2e192ec8bd183int, 1, 0x137f8c58513efint);
    lemma_power_step(2, 0x477be711eceddnat, 285, 0x137f8c58513efint, 1, 0x11fc0466bfe72int);
    lemma_power_step(2, 0x477be711eceddnat, 571, 0x11fc0466bfe72int, 1, 0x18cf36b72dab1int);
    lemma_power_step(2, 0x477be711eceddnat, 1143, 0x18cf36b72dab1int, 1, 0x3b5a6ce90855fint);
    lemma_power_step(2, 0x477be711eceddnat, 2287, 0x3b5a6ce90855fint, 0, 0x712fe70a92d3int);
    lemma_power_step(2, 0x477be711eceddnat, 4574, 0x712fe70a92d3int, 1, 0xd88874b87287int);
    lemma_power_step(2, 0x477be711eceddnat, 9149, 0xd88874b87287int, 1, 0x3969f30980d98int);
    lemma_power_step(2, 0x477be711eceddnat, 18299, 0x3969f30980d98int, 1, 0x2be790b88b10fint);
    lemma_power_step(2, 0x477be711eceddnat, 36599, 0x2be790b88b10fint, 1, 0x32fc53d9d9a6eint);
    lemma_power_step(2, 0x477be711eceddnat, 73199, 0x32fc53d9d9a6eint, 1, 0x15e86dfc20165int);
    lemma_power_step(2, 0x477be711eceddnat, 146399, 0x15e86dfc20165int, 0, 0x3d00975512c60int);
    lemma_power_step(2, 0x477be711eceddnat, 292798, 0x3d00975512c60int, 0, 0x936ee9c59428int);
    lemma_power_step(2, 0x477be711eceddnat, 585596, 0x936ee9c59428int, 1, 0x2f49b363b56a6int);
    lemma_power_step(2, 0x477be711eceddnat, 1171193, 0x2f49b363b56a6int, 1, 0x4340bed5bd272int);
    lemma_power_step(2, 0x477be711eceddnat, 2342387, 0x4340bed5bd272int, 1, 0x6ecf51297a11int);
    lemma_power_step(2, 0x477be711eceddnat, 4684775, 0x6ecf51297a11int, 0, 0x228c1aa1dfb21int);
    lemma_power_step(2, 0x477be711eceddnat, 9369550, 0x228c1aa1dfb21int, 0, 0x347d15b1e67d5int);
    lemma_power_step(2, 0x477be711eceddnat, 18739100, 0x347d15b1e67d5int, 0, 0x280c811df1ad8int);
    lemma_power_step(2, 0x477be711eceddnat, 37478200, 0x280c811df1ad8int, 1, 0x2725cb9153800int);
    lemma_power_step(2, 0x477be711eceddnat, 74956401, 0x2725cb9153800int, 0, 0x3e205eb0f046aint);
    lemma_power_step(2, 0x477be711eceddnat, 149912802, 0x3e205eb0f046aint, 0, 0x2132c6c6f6aaeint);
    lemma_power_step(2, 0x477be711eceddnat, 299825604, 0x2132c6c6f6aaeint, 0, 0x1e7cb5a18340bint);
    lemma_power_step(2, 0x477be711eceddnat, 599651208, 0x1e7cb5a18340bint, 1, 0x380316d5dff2aint);
    lemma_power_step(2, 0x477be711eceddnat, 0x477be711nat, 0x380316d5dff2aint, 1, 0x94c0f4ce000eint);
    lemma_power_step(2, 0x477be711eceddnat, 0x8ef7ce23nat, 0x94c0f4ce000eint, 1, 0x38aef0c2da32fint);
    lemma_power_step(2, 0x477be711eceddnat, 0x11def9c47nat, 0x38aef0c2da32fint, 1, 0x32523bd49ae99int);
    lemma_power_step(2, 0x477be711eceddnat, 0x23bdf388fnat, 0x32523bd49ae99int, 0, 0x2410e848d22bbint);
    lemma_power_step(2, 0x477be711eceddnat, 0x477be711enat, 0x2410e848d22bbint, 1, 0x2424aca1ff23bint);
    lemma_power_step(2, 0x477be711eceddnat, 0x8ef7ce23dnat, 0x2424aca1ff23bint, 1, 0x1ea0504c0632int);
    lemma_power_step(2, 0x477be711eceddnat, 0x11def9c47bnat, 0x1ea0504c0632int, 0, 0x650f3cd1d2b1int);
    lemma_power_step(2, 0x477be711eceddnat, 0x23bdf388f6nat, 0x650f3cd1d2b1int, 0, 0xde8e26bb8699int);
    lemma_power_step(2, 0x477be711eceddnat, 0x477be711ecnat, 0xde8e26bb8699int, 1, 0x446ea6d6e5f9aint);
    lemma_power_step(2, 0x477be711eceddnat, 0x8ef7ce23d9nat, 0x446ea6d6e5f9aint, 1, 0x14e21c233b020int);
    lemma_power_step(2, 0x477be711eceddnat, 0x11def9c47b3nat, 0x14e21c233b020int, 1, 0x1a7605bd49ab9int);
    lemma_power_step(2, 0x477be711eceddnat, 0x23bdf388f67nat, 0x1a7605bd49ab9int, 0, 0x3a4ecd85eb4baint);
    lemma_power_step(2, 0x477be711eceddnat, 0x477be711ecenat, 0x3a4ecd85eb4baint, 1, 0x5ba01e614b9fint);
    lemma_power_step(2, 0x477be711eceddnat, 0x8ef7ce23d9dnat, 0x5ba01e614b9fint, 1, 0x3e0cdd5060706int);
    lemma_power_step(2, 0x477be711eceddnat, 0x11def9c47b3bnat, 0x3e0cdd5060706int, 0, 0x475b5a14dc64dint);
    lemma_power_step(2, 0x477be711eceddnat, 0x23bdf388f676nat, 0x475b5a14dc64dint, 1, 0x2354f98fad680int);
    lemma_power_step(2, 0x477be711eceddnat, 0x477be711ecednat, 0x2354f98fad680int, 1, 0x2f598fde66498int);
}

/// A power of 2 modulo `p = 1257559732178653`.
proof fn lemma_power_2()
    ensures
        power_mod(2, 0x477be711ecedcnat, 0x477be711eceddnat) == 1,
{
    lemma_power_1();
    lemma_power_step(2, 0x477be711eceddnat, 0x8ef7ce23d9dbnat, 0x2f598fde66498int, 1, 0x173738aadfa52int);
    lemma_power_step(2, 0x477be711eceddnat, 0x11def9c47b3b7nat, 0x173738aadfa52int, 0, 0x477be711ecedcint);
    lemma_power_step(2, 0x477be711eceddnat, 0x23bdf388f676enat, 0x477be711ecedcint, 0, 1);
}

/// A power of 2 modulo `p = 1257559732178653`.
proof fn lemma_power_3()
    ensures
        power_mod(2, 0x8ef7ce23d9dbnat, 0x477be711eceddnat) == 0x2f598fde66498int,
{
    lemma_power_zero(2, 0x477be711eceddnat);
    lemma_power_step(2, 0x477be711eceddnat, 0, 1, 1, 2);
    lemma_power_step(2, 0x477be711eceddnat, 1, 2, 0, 4);
    lemma_power_step(2, 0x477be711eceddnat, 2, 4, 0, 16);
    lemma_power_step(2, 0x477be711eceddnat, 4, 16, 0, 256);
    lemma_power_step(2, 0x477be711eceddnat, 8, 256, 1, 131072);
    lemma_power_step(2, 0x477be711eceddnat, 17, 131072, 1, 0x800000000int);
    lemma_power_step(2, 0x477be711eceddnat, 35, 0x800000000int, 1, 0x1718ef43864e5int);
    lemma_power_step(2, 0x477be711eceddnat, 71, 0x1718ef43864e5int, 0, 0x2e192ec8bd183int);
    lemma_power_step(2, 0x477be711eceddnat, 142, 0x2e192ec8bd183int, 1, 0x137f8c58513efint);
    lemma_power_step(2, 0x477be711eceddnat, 285, 0x137f8c58513efint, 1, 0x11fc0466bfe72int);
    lemma_power_step(2, 0x477be711eceddnat, 571, 0x11fc0466bfe72int, 1, 0x18cf36b72dab1int);
    lemma_power_step(2, 0x477be711eceddnat, 1143, 0x18cf36b72dab1int, 1, 0x3b5a6ce90855fint);
    lemma_power_step(2, 0x477be711eceddnat, 2287, 0x3b5a6ce90855fint, 0, 0x712fe70a92d3int);
    lemma_power_step(2, 0x477be711eceddnat, 4574, 0x712fe70a92d3int, 1, 0xd88874b87287int);
    lemma_power_step(2, 0x477be711eceddnat, 9149, 0xd88874b87287int, 1, 0x3969f30980d98int);
    lemma_power_step(2, 0x477be711eceddnat, 18299, 0x3969f30980d98int, 1, 0x2be790b88b10fint);
    lemma_power_step(2, 0x477be711eceddnat, 36599, 0x2be790b88b10fint, 1, 0x32fc53d9d9a6eint);
    lemma_power_step(2, 0x477be711eceddnat, 73199, 0x32fc53d9d9a6eint, 1, 0x15e86dfc20165int);
    lemma_power_step(2, 0x477be711eceddnat, 146399, 0x15e86dfc20165int, 0, 0x3d00975512c60int);
    lemma_power_step(2, 0x477be711eceddnat, 292798, 0x3d00975512c60int, 0, 0x936ee9c59428int);
    lemma_power_step(2, 0x477be711eceddnat, 585596, 0x936ee9c59428int, 1, 0x2f49b363b56a6int);
    lemma_power_step(2, 0x477be711eceddnat, 1171193, 0x2f49b363b56a6int, 1, 0x4340bed5bd272int);
    lemma_power_step(2, 0x477be711eceddnat, 2342387, 0x4340bed5bd272int, 1, 0x6ecf51297a11int);
    lemma_power_step(2, 0x477be711eceddnat, 4684775, 0x6ecf51297a11int, 0, 0x228c1aa1dfb21int);
    lemma_power_step(2, 0x477be711eceddnat, 9369550, 0x228c1aa1dfb21int, 0, 0x347d15b1e67d5int);
    lemma_power_step(2, 0x477be711eceddnat, 18739100, 0x347d15b1e67d5int, 0, 0x280c811df1ad8int);
    lemma_power_step(2, 0x477be711eceddnat, 37478200, 0x280c811df1ad8int, 1, 0x2725cb9153800int);
    lemma_power_step(2, 0x477be711eceddnat, 74956401, 0x2725cb9153800int, 0, 0x3e205eb0f046aint);
    lemma_power_step(2, 0x477be711eceddnat, 149912802, 0x3e205eb0f046aint, 0, 0x2132c6c6f6aaeint);
    lemma_power_step(2, 0x477be711eceddnat, 299825604, 0x2132c6c6f6aaeint, 0, 0x1e7cb5a18340bint);
    lemma_power_step(2, 0x477be711eceddnat, 599651208, 0x1e7cb5a18340bint, 1, 0x380316d5dff2aint);
    lemma_power_step(2, 0x477be711eceddnat, 0x477be711nat, 0x380316d5dff2aint, 1, 0x94c0f4ce000eint);
    lemma_power_step(2, 0x477be711eceddnat, 0x8ef7ce23nat, 0x94c0f4ce000eint, 1, 0x38aef0c2da32fint);
    lemma_power_step(2, 0x477be711eceddnat, 0x11def9c47nat, 0x38aef0c2da32fint, 1, 0x32523bd49ae99int);
    lemma_power_step(2, 0x477be711eceddnat, 0x23bdf388fnat, 0x32523bd49ae99int, 0, 0x2410e848d22bbint);
    lemma_power_step(2, 0x477be711eceddnat, 0x477be711enat, 0x2410e848d22bbint, 1, 0x2424aca1ff23bint);
    lemma_power_step(2, 0x477be711eceddnat, 0x8ef7ce23dnat, 0x2424aca1ff23bint, 1, 0x1ea0504c0632int);
    lemma_power_step(2, 0x477be711eceddnat, 0x11def9c47bnat, 0x1ea0504c0632int, 0, 0x650f3cd1d2b1int);
    lemma_power_step(2, 0x477be711eceddnat, 0x23bdf388f6nat, 0x650f3cd1d2b1int, 0, 0xde8e26bb8699int);
    lemma_power_step(2, 0x477be711eceddnat, 0x477be711ecnat, 0xde8e26bb8699int, 1, 0x446ea6d6e5f9aint);
    lemma_power_step(2, 0x477be711eceddnat, 0x8ef7ce23d9nat, 0x446ea6d6e5f9aint, 1, 0x14e21c233b020int);
    lemma_power_step(2, 0x477be711eceddnat, 0x11def9c47b3nat, 0x14e21c233b020int, 1, 0x1a7605bd49ab9int);
    lemma_power_step(2, 0x477be711eceddnat, 0x23bdf388f67nat, 0x1a7605bd49ab9int, 0, 0x3a4ecd85eb4baint);
    lemma_power_step(2, 0x477be711eceddnat, 0x477be711ecenat, 0x3a4ecd85eb4baint, 1, 0x5ba01e614b9fint);
    lemma_power_step(2, 0x477be711eceddnat, 0x8ef7ce23d9dnat, 0x5ba01e614b9fint, 1, 0x3e0cdd5060706int);
    lemma_power_step(2, 0x477be711eceddnat, 0x11def9c47b3bnat, 0x3e0cdd5060706int, 0, 0x475b5a14dc64dint);
    lemma_power_step(2, 0x477be711eceddnat, 0x23bdf388f676nat, 0x475b5a14dc64dint, 1, 0x2354f98fad680int);
    lemma_power_step(2, 0x477be711eceddnat, 0x477be711ecednat, 0x2354f98fad680int, 1, 0x2f598fde66498int);
}

/// A power of 2 modulo `p = 1257559732178653`.
proof fn lemma_power_4()
    ensures
        power_mod(2, 0x23bdf388f676enat, 0x477be711eceddnat) == 0x477be711ecedcint,
{
    lemma_power_3();
    lemma_power_step(2, 0x477be711eceddnat, 0x8ef7ce23d9dbnat, 0x2f598fde66498int, 1, 0x173738aadfa52int);
    lemma_power_step(2, 0x477be711eceddnat, 0x11def9c47b3b7nat, 0x173738aadfa52int, 0, 0x477be711ecedcint);
}

/// A power of 2 modulo `p = 1257559732178653`.
proof fn lemma_power_5()
    ensures
        power_mod(2, 0xbe9fbd85227anat, 0x477be711eceddnat) == 0x57442f1127f4int,
{
    lemma_power_zero(2, 0x477be711eceddnat);
    lemma_power_step(2, 0x477be711eceddnat, 0, 1, 1, 2);
    lemma_power_step(2, 0x477be711eceddnat, 1, 2, 0, 4);
    lemma_power_step(2, 0x477be711eceddnat, 2, 4, 1, 32);
    lemma_power_step(2, 0x477be711eceddnat, 5, 32, 1, 2048);
    lemma_power_step(2, 0x477be711eceddnat, 11, 2048, 1, 8388608);
    lemma_power_step(2, 0x477be711eceddnat, 23, 8388608, 1, 0x800000000000int);
    lemma_power_step(2, 0x477be711eceddnat, 47, 0x800000000000int, 1, 0x42bfa6635bd52int);
    lemma_power_step(2, 0x477be711eceddnat, 95, 0x42bfa6635bd52int, 0, 0x25382e1031dc8int);
    lemma_power_step(2, 0x477be711eceddnat, 190, 0x25382e1031dc8int, 1, 0x20e727d25b8e4int);
    lemma_power_step(2, 0x477be711eceddnat, 381, 0x20e727d25b8e4int, 0, 0x52e148eb2969int);
    lemma_power_step(2, 0x477be711eceddnat, 762, 0x52e148eb2969int, 0, 0x2d3453f8c13a5int);
    lemma_power_step(2, 0x477be711eceddnat, 1524, 0x2d3453f8c13a5int, 1, 0x3e92a2425f623int);
    lemma_power_step(2, 0x477be711eceddnat, 3049, 0x3e92a2425f623int, 1, 0xfe64d19a35fint);
    lemma_power_step(2, 0x477be711eceddnat, 6099, 0xfe64d19a35fint, 1, 0x9c88b301001eint);
    lemma_power_step(2, 0x477be711eceddnat, 12199, 0x9c88b301001eint, 1, 0xabfd9ea7f13fint);
    lemma_power_step(2, 0x477be711eceddnat, 24399, 0xabfd9ea7f13fint, 1, 0x10a63624cb362int);
    lemma_power_step(2, 0x477be711eceddnat, 48799, 0x10a63624cb362int, 1, 0x277b2185f839eint);
    lemma_power_step(2, 0x477be711eceddnat, 97599, 0x277b2185f839eint, 0, 0x29568d0c88789int);
    lemma_power_step(2, 0x477be711eceddnat, 195198, 0x29568d0c88789int, 1, 0x3e9992281cf20int);
    lemma_power_step(2, 0x477be711eceddnat, 390397, 0x3e9992281cf20int, 1, 0x3f541a6652b37int);
    lemma_power_step(2, 0x477be711eceddnat, 780795, 0x3f541a6652b37int, 1, 0x4ea571c4a4c9int);
    lemma_power_step(2, 0x477be711eceddnat, 1561591, 0x4ea571c4a4c9int, 1, 0x37ea04badfcaeint);
    lemma_power_step(2, 0x477be711eceddnat, 3123183, 0x37ea04badfcaeint, 0, 0x2de65a6209bb8int);
    lemma_power_step(2, 0x477be711eceddnat, 6246366, 0x2de65a6209bb8int, 1, 0x3d14bd8387670int);
    lemma_power_step(2, 0x477be711eceddnat, 12492733, 0x3d14bd8387670int, 1, 0x38966097d857bint);
    lemma_power_step(2, 0x477be711eceddnat, 24985467, 0x38966097d857bint, 0, 0x194707793fbc3int);
    lemma_power_step(2, 0x477be711eceddnat, 49970934, 0x194707793fbc3int, 0, 0x2faf02400ddf1int);
    lemma_power_step(2, 0x477be711eceddnat, 99941868, 0x2faf02400ddf1int, 0, 0x18c826c197b5dint);
    lemma_power_step(2, 0x477be711eceddnat, 199883736, 0x18c826c197b5dint, 0, 0xae4c31cca11aint);
    lemma_power_step(2, 0x477be711eceddnat, 399767472, 0xae4c31cca11aint, 1, 0x9183ae29e530int);
    lemma_power_step(2, 0x477be711eceddnat, 799534945, 0x9183ae29e530int, 0, 0x1671c2c2cf303int);
    lemma_power_step(2, 0x477be711eceddnat, 0x5f4fdec2nat, 0x1671c2c2cf303int, 1, 0x34bc84034c882int);
    lemma_power_step(2, 0x477be711eceddnat, 0xbe9fbd85nat, 0x34bc84034c882int, 0, 0x163785e55da63int);
    lemma_power_step(2, 0x477be711eceddnat, 0x17d3f7b0anat, 0x163785e55da63int, 0, 0x16f8de293049bint);
    lemma_power_step(2, 0x477be711eceddnat, 0x2fa7ef614nat, 0x16f8de293049bint, 1, 0x4729a297aec27int);
    lemma_power_step(2, 0x477be711eceddnat, 0x5f4fdec29nat, 0x4729a297aec27int, 0, 0x38195e38d741dint);
    lemma_power_step(2, 0x477be711eceddnat, 0xbe9fbd852nat, 0x38195e38d741dint, 0, 0x452fee19cfe83int);
    lemma_power_step(2, 0x477be711eceddnat, 0x17d3f7b0a4nat, 0x452fee19cfe83int, 0, 0x12580bb9844d2int);
    lemma_power_step(2, 0x477be711eceddnat, 0x2fa7ef6148nat, 0x12580bb9844d2int, 1, 0x417e17b550dffint);
    lemma_power_step(2, 0x477be711eceddnat, 0x5f4fdec291nat, 0x417e17b550dffint, 0, 0x1b48fb9cc92a3int);
    lemma_power_step(2, 0x477be711eceddnat, 0xbe9fbd8522nat, 0x1b48fb9cc92a3int, 0, 0x183fa4fe1718int);
    lemma_power_step(2, 0x477be711eceddnat, 0x17d3f7b0a44nat, 0x183fa4fe1718int, 1, 0x3cda1dd6df56fint);
    lemma_power_step(2, 0x477be711eceddnat, 0x2fa7ef61489nat, 0x3cda1dd6df56fint, 1, 0x13b388f9d6c3bint);
    lemma_power_step(2, 0x477be711eceddnat, 0x5f4fdec2913nat, 0x13b388f9d6c3bint, 1, 0x419aa480e86acint);
    lemma_power_step(2, 0x477be711eceddnat, 0xbe9fbd85227nat, 0x419aa480e86acint, 1, 0x1525a54ee42fint);
    lemma_power_step(2, 0x477be711eceddnat, 0x17d3f7b0a44fnat, 0x1525a54ee42fint, 0, 0x8eacdeda84baint);
    lemma_power_step(2, 0x477be711eceddnat, 0x2fa7ef61489enat, 0x8eacdeda84baint, 1, 0x239891951dbd2int);
    lemma_power_step(2, 0x477be711eceddnat, 0x5f4fdec2913dnat, 0x239891951dbd2int, 0, 0x57442f1127f4int);
}

/// A power of 2 modulo `p = 1257559732178653`.
proof fn lemma_power_6()
    ensures
        power_mod(2, 0x17d3f7b0a44f4nat, 0x477be711eceddnat) == 0x57442f1127f3int,
{
    lemma_power_5();
    lemma_power_step(2, 0x477be711eceddnat, 0xbe9fbd85227anat, 0x57442f1127f4int, 0, 0x57442f1127f3int);
}

/// `p = 1257559732178653` is prime: 2 has the order `p - 1` modulo `p`.
proof fn lemma_prime_1257559732178653()
    ensures
        is_prime(0x477be711eceddnat),
{
    lemma_prime_2();
    lemma_prime_3();
    lemma_prime_7();
    lemma_prime_23();
    lemma_prime_531581();
    lemma_prime_1224481();
    lemma_power_2();
    lemma_power_4();
    lemma_power_6();
    lemma_power_zero(2, 0x477be711eceddnat);
    lemma_power_step(2, 0x477be711eceddnat, 0, 1, 1, 2);
    lemma_power_step(2, 0x477be711eceddnat, 1, 2, 0, 4);
    lemma_power_step(2, 0x477be711eceddnat, 2, 4, 1, 32);
    lemma_power_step(2, 0x477be711eceddnat, 5, 32, 0, 1024);
    lemma_power_step(2, 0x477be711eceddnat, 10, 1024, 0, 1048576);
    lemma_power_step(2, 0x477be711eceddnat, 20, 1048576, 0, 0x10000000000int);
    lemma_power_step(2, 0x477be711eceddnat, 40, 0x10000000000int, 1, 0x3e0530fdceb1eint);
    lemma_power_step(2, 0x477be711eceddnat, 81, 0x3e0530fdceb1eint, 1, 0x30dc6dab0d6fcint);
    lemma_power_step(2, 0x477be711eceddnat, 163, 0x30dc6dab0d6fcint, 0, 0x356be354d7421int);
    lemma_power_step(2, 0x477be711eceddnat, 326, 0x356be354d7421int, 1, 0x70cefc26b08int);
    lemma_power_step(2, 0x477be711eceddnat, 653, 0x70cefc26b08int, 1, 0x294eeaa0dfc79int);
    lemma_power_step(2, 0x477be711eceddnat, 1307, 0x294eeaa0dfc79int, 0, 0x1d0a8ae100017int);
    lemma_power_step(2, 0x477be711eceddnat, 2614, 0x1d0a8ae100017int, 0, 0x3ede84b5fcb24int);
    lemma_power_step(2, 0x477be711eceddnat, 5228, 0x3ede84b5fcb24int, 1, 0x101e2d7058bcbint);
    lemma_power_step(2, 0x477be711eceddnat, 10457, 0x101e2d7058bcbint, 0, 0x3c1f1dbac517bint);
    lemma_power_step(2, 0x477be711eceddnat, 20914, 0x3c1f1dbac517bint, 0, 0x20a22ec72bf8int);
    lemma_power_step(2, 0x477be711eceddnat, 41828, 0x20a22ec72bf8int, 0, 0x2184c797eae51int);
    lemma_power_step(2, 0x477be711eceddnat, 83656, 0x2184c797eae51int, 1, 0x5ad9ce206a6fint);
    lemma_power_step(2, 0x477be711eceddnat, 167313, 0x5ad9ce206a6fint, 0, 0x3c14e1033ab21int);
    lemma_power_step(2, 0x477be711eceddnat, 334626, 0x3c14e1033ab21int, 1, 0x9563eaf26a6fint);
    lemma_power_step(2, 0x477be711eceddnat, 669253, 0x9563eaf26a6fint, 1, 0x284373a3ecb7dint);
    lemma_power_step(2, 0x477be711eceddnat, 1338507, 0x284373a3ecb7dint, 0, 0x386cdecb790f1int);
    lemma_power_step(2, 0x477be711eceddnat, 2677014, 0x386cdecb790f1int, 0, 0x15413ecbfe8b3int);
    lemma_power_step(2, 0x477be711eceddnat, 5354028, 0x15413ecbfe8b3int, 1, 0x33cfc8bcada46int);
    lemma_power_step(2, 0x477be711eceddnat, 10708057, 0x33cfc8bcada46int, 0, 0x1cee2e3b95601int);
    lemma_power_step(2, 0x477be711eceddnat, 21416114, 0x1cee2e3b95601int, 1, 0x1a0ec012b68d7int);
    lemma_power_step(2, 0x477be711eceddnat, 42832229, 0x1a0ec012b68d7int, 0, 0x981e74451445int);
    lemma_power_step(2, 0x477be711eceddnat, 85664458, 0x981e74451445int, 0, 0x1dc5ba945c9b9int);
    lemma_power_step(2, 0x477be711eceddnat, 171328916, 0x1dc5ba945c9b9int, 1, 0xc500f72b2326int);
    lemma_power_step(2, 0x477be711eceddnat, 342657833, 0xc500f72b2326int, 1, 0x8a1cda127b6fint);
    lemma_power_step(2, 0x477be711eceddnat, 685315667, 0x8a1cda127b6fint, 0, 0x286cd1217785eint);
    lemma_power_step(2, 0x477be711eceddnat, 0x51b22ca6nat, 0x286cd1217785eint, 1, 0x2995f75132ecdint);
    lemma_power_step(2, 0x477be711eceddnat, 0xa364594dnat, 0x2995f75132ecdint, 1, 0x5b6faaefd5a4int);
    lemma_power_step(2, 0x477be711eceddnat, 0x146c8b29bnat, 0x5b6faaefd5a4int, 0, 0x3ca9d55c3ee93int);
    lemma_power_step(2, 0x477be711eceddnat, 0x28d916536nat, 0x3ca9d55c3ee93int, 0, 0x191dbb6bad0faint);
    lemma_power_step(2, 0x477be711eceddnat, 0x51b22ca6cnat, 0x191dbb6bad0faint, 0, 0x29538b1452159int);
    lemma_power_step(2, 0x477be711eceddnat, 0xa364594d8nat, 0x29538b1452159int, 1, 0x135843a3ee45fint);
    lemma_power_step(2, 0x477be711eceddnat, 0x146c8b29b1nat, 0x135843a3ee45fint, 0, 0x21b528fc85393int);
    lemma_power_step(2, 0x477be711eceddnat, 0x28d9165362nat, 0x21b528fc85393int, 1, 0x240a601e7a4b1int);
    lemma_power_step(2, 0x477be711eceddnat, 0x51b22ca6c5nat, 0x240a601e7a4b1int, 1, 0x3f9db4a231362int);
    lemma_power_step(2, 0x477be711eceddnat, 0xa364594d8bnat, 0x3f9db4a231362int, 0, 0x1269dc8e59335int);
    lemma_power_step(2, 0x477be711eceddnat, 0x146c8b29b16nat, 0x1269dc8e59335int, 1, 0x351ee286aca92int);
    lemma_power_step(2, 0x477be711eceddnat, 0x28d9165362dnat, 0x351ee286aca92int, 0, 0xaa4b37f8105dint);
    lemma_power_step(2, 0x477be711eceddnat, 0x51b22ca6c5anat, 0xaa4b37f8105dint, 0, 0x3b76dddc6eec6int);
    lemma_power_step(2, 0x477be711eceddnat, 0xa364594d8b4nat, 0x3b76dddc6eec6int, 0, 0x1a5692bcf11cbint);
    lemma_power_step(2, 0x477be711eceddnat, 0x146c8b29b168nat, 0x1a5692bcf11cbint, 1, 0x1965e8db294e2int);
    lemma_power_step(2, 0x477be711eceddnat, 0x28d9165362d1nat, 0x1965e8db294e2int, 0, 0x39f68d81628cbint);
    lemma_power_step(2, 0x477be711eceddnat, 0x51b22ca6c5a2nat, 0x39f68d81628cbint, 0, 0x24b9abb10a6daint);
    lemma_power_step(2, 0x477be711eceddnat, 0, 1, 1, 2);
    lemma_power_step(2, 0x477be711eceddnat, 1, 2, 1, 8);
    lemma_power_step(2, 0x477be711eceddnat, 3, 8, 0, 64);
    lemma_power_step(2, 0x477be711eceddnat, 6, 64, 0, 4096);
    lemma_power_step(2, 0x477be711eceddnat, 12, 4096, 0, 16777216);
    lemma_power_step(2, 0x477be711eceddnat, 24, 16777216, 1, 0x2000000000000int);
    lemma_power_step(2, 0x477be711eceddnat, 49, 0x2000000000000int, 1, 0x4333c33ac850aint);
    lemma_power_step(2, 0x477be711eceddnat, 99, 0x4333c33ac850aint, 0, 0x14cf03e1c4f2fint);
    lemma_power_step(2, 0x477be711eceddnat, 198, 0x14cf03e1c4f2fint, 1, 0xd1fe85b6e11fint);
    lemma_power_step(2, 0x477be711eceddnat, 397, 0xd1fe85b6e11fint, 1, 0x1b3a119769713int);
    lemma_power_step(2, 0x477be711eceddnat, 795, 0x1b3a119769713int, 1, 0x11db0874d5648int);
    lemma_power_step(2, 0x477be711eceddnat, 1591, 0x11db0874d5648int, 0, 0x38fc5b48d388int);
    lemma_power_step(2, 0x477be711eceddnat, 3182, 0x38fc5b48d388int, 1, 0x19458ab5ea56bint);
    lemma_power_step(2, 0x477be711eceddnat, 6365, 0x19458ab5ea56bint, 0, 0x23df4e44a6d6eint);
    lemma_power_step(2, 0x477be711eceddnat, 12730, 0x23df4e44a6d6eint, 0, 0x59e87367a760int);
    lemma_power_step(2, 0x477be711eceddnat, 25460, 0x59e87367a760int, 1, 0x96ecbcbdb0b5int);
    lemma_power_step(2, 0x477be711eceddnat, 50921, 0x96ecbcbdb0b5int, 0, 0x1f1e1575f21d8int);
    lemma_power_step(2, 0x477be711eceddnat, 101842, 0x1f1e1575f21d8int, 1, 0x252cf454882a6int);
    lemma_power_step(2, 0x477be711eceddnat, 203685, 0x252cf454882a6int, 1, 0x6127baddf49dint);
    lemma_power_step(2, 0x477be711eceddnat, 407371, 0x6127baddf49dint, 1, 0x2dc3150d4fc48int);
    lemma_power_step(2, 0x477be711eceddnat, 814743, 0x2dc3150d4fc48int, 0, 0x3b6c2aa5aecbfint);
    lemma_power_step(2, 0x477be711eceddnat, 1629486, 0x3b6c2aa5aecbfint, 1, 0x24d6c66126b6eint);
    lemma_power_step(2, 0x477be711eceddnat, 3258973, 0x24d6c66126b6eint, 1, 0x3882c857aa663int);
    lemma_power_step(2, 0x477be711eceddnat, 6517947, 0x3882c857aa663int, 1, 0x1a8b6900b8ce4int);
    lemma_power_step(2, 0x477be711eceddnat, 13035895, 0x1a8b6900b8ce4int, 1, 0x22246c59f1046int);
    lemma_power_step(2, 0x477be711eceddnat, 26071791, 0x22246c59f1046int, 1, 0x33b913b05c361int);
    lemma_power_step(2, 0x477be711eceddnat, 52143583, 0x33b913b05c361int, 0, 0x1897e057d58bfint);
    lemma_power_step(2, 0x477be711eceddnat, 104287166, 0x1897e057d58bfint, 1, 0x20b4c62eb1c6aint);
    lemma_power_step(2, 0x477be711eceddnat, 208574333, 0x20b4c62eb1c6aint, 1, 0x124c1d90a77dint);
    lemma_power_step(2, 0x477be711eceddnat, 417148667, 0x124c1d90a77dint, 0, 0x678e09ab8814int);
    lemma_power_step(2, 0x477be711eceddnat, 834297334, 0x678e09ab8814int, 0, 0x3495e667cacf7int);
    lemma_power_step(2, 0x477be711eceddnat, 0x6374bbecnat, 0x3495e667cacf7int, 0, 0x25145142a805dint);
    lemma_power_step(2, 0x477be711eceddnat, 0xc6e977d8nat, 0x25145142a805dint, 1, 0x2d6aa48e711cfint);
    lemma_power_step(2, 0x477be711eceddnat, 0x18dd2efb1nat, 0x2d6aa48e711cfint, 1, 0x270d86da6a897int);
    lemma_power_step(2, 0x477be711eceddnat, 0x31ba5df63nat, 0x270d86da6a897int, 0, 0x3d32f19152668int);
    lemma_power_step(2, 0x477be711eceddnat, 0x6374bbec6nat, 0x3d32f19152668int, 1, 0xdeafda6b82fint);
    lemma_power_step(2, 0x477be711eceddnat, 0xc6e977d8dnat, 0xdeafda6b82fint, 0, 0x3d3263c94c24dint);
    lemma_power_step(2, 0x477be711eceddnat, 0x18dd2efb1anat, 0x3d3263c94c24dint, 1, 0x3abdf1036f774int);
    lemma_power_step(2, 0x477be711eceddnat, 0x31ba5df635nat, 0x3abdf1036f774int, 1, 0x3af690d5aaa53int);
    lemma_power_step(2, 0x477be711eceddnat, 0x6374bbec6bnat, 0x3af690d5aaa53int, 0, 0x9dd3f5ee008eint);
    lemma_power_step(2, 0x477be711eceddnat, 0xc6e977d8d6nat, 0x9dd3f5ee008eint, 0, 0x2b6bc991a849bint);
    lemma_power_step(2, 0x477be711eceddnat, 0x18dd2efb1acnat, 0x2b6bc991a849bint, 0, 0x77eb297cd92aint);
    lemma_power_step(2, 0x477be711eceddnat, 0x31ba5df6358nat, 0x77eb297cd92aint, 0, 0x1e109b94bb207int);
    lemma_power_step(2, 0x477be711eceddnat, 0x6374bbec6b0nat, 0x1e109b94bb207int, 1, 0x35677dbe92c86int);
    lemma_power_step(2, 0x477be711eceddnat, 0xc6e977d8d61nat, 0x35677dbe92c86int, 0, 0x4246b5cfd6a16int);
    lemma_power_step(2, 0x477be711eceddnat, 0x18dd2efb1ac2nat, 0x4246b5cfd6a16int, 0, 0x61a11bb79f52int);
    lemma_power_step(2, 0x477be711eceddnat, 0, 1, 1, 2);
    lemma_power_step(2, 0x477be711eceddnat, 1, 2, 0, 4);
    lemma_power_step(2, 0x477be711eceddnat, 2, 4, 0, 16);
    lemma_power_step(2, 0x477be711eceddnat, 4, 16, 0, 256);
    lemma_power_step(2, 0x477be711eceddnat, 8, 256, 1, 131072);
    lemma_power_step(2, 0x477be711eceddnat, 17, 131072, 1, 0x800000000int);
    lemma_power_step(2, 0x477be711eceddnat, 35, 0x800000000int, 0, 0x2f4a6b2ab99e1int);
    lemma_power_step(2, 0x477be711eceddnat, 70, 0x2f4a6b2ab99e1int, 1, 0x3aca8aed55030int);
    lemma_power_step(2, 0x477be711eceddnat, 141, 0x3aca8aed55030int, 0, 0x2f1d61f63e3c8int);
    lemma_power_step(2, 0x477be711eceddnat, 282, 0x2f1d61f63e3c8int, 0, 0x391ab42b164d5int);
    lemma_power_step(2, 0x477be711eceddnat, 564, 0x391ab42b164d5int, 0, 0x37e812472c502int);
    lemma_power_step(2, 0x477be711eceddnat, 1128, 0x37e812472c502int, 0, 0xadc2314fb0f3int);
    lemma_power_step(2, 0x477be711eceddnat, 2256, 0xadc2314fb0f3int, 0, 0x31383c157f645int);
    lemma_power_step(2, 0x477be711eceddnat, 4512, 0x31383c157f645int, 0, 0x1143b097321c8int);
    lemma_power_step(2, 0x477be711eceddnat, 9024, 0x1143b097321c8int, 0, 0x14c7e9b8bedb3int);
    lemma_power_step(2, 0x477be711eceddnat, 18048, 0x14c7e9b8bedb3int, 1, 0x46bd454ab8039int);
    lemma_power_step(2, 0x477be711eceddnat, 36097, 0x46bd454ab8039int, 1, 0x119bcc404c645int);
    lemma_power_step(2, 0x477be711eceddnat, 72195, 0x119bcc404c645int, 0, 0x3bfcc798e3b3int);
    lemma_power_step(2, 0x477be711eceddnat, 144390, 0x3bfcc798e3b3int, 1, 0x4166079939b14int);
    lemma_power_step(2, 0x477be711eceddnat, 288781, 0x4166079939b14int, 0, 0x3eda78c8359dfint);
    lemma_power_step(2, 0x477be711eceddnat, 577562, 0x3eda78c8359dfint, 1, 0x23feb8a858c1bint);
    lemma_power_step(2, 0x477be711eceddnat, 1155125, 0x23feb8a858c1bint, 1, 0x313a35dbfe6daint);
    lemma_power_step(2, 0x477be711eceddnat, 2310251, 0x313a35dbfe6daint, 0, 0x2416a0ff3918bint);
    lemma_power_step(2, 0x477be711eceddnat, 4620502, 0x2416a0ff3918bint, 1, 0x1677e88ae291int);
    lemma_power_step(2, 0x477be711eceddnat, 9241005, 0x1677e88ae291int, 0, 0x48805914d323int);
    lemma_power_step(2, 0x477be711eceddnat, 18482010, 0x48805914d323int, 0, 0x2c896b783304bint);
    lemma_power_step(2, 0x477be711eceddnat, 36964020, 0x2c896b783304bint, 0, 0x3af486955ad7bint);
    lemma_power_step(2, 0x477be711eceddnat, 73928040, 0x3af486955ad7bint, 0, 0x3fc0ab43ee711int);
    lemma_power_step(2, 0x477be711eceddnat, 147856080, 0x3fc0ab43ee711int, 1, 0x2475412bdff3eint);
    lemma_power_step(2, 0x477be711eceddnat, 295712161, 0x2475412bdff3eint, 1, 0x1d3c1af4023edint);
    lemma_power_step(2, 0x477be711eceddnat, 591424323, 0x1d3c1af4023edint, 0, 0x3cd115276d928int);
    lemma_power_step(2, 0x477be711eceddnat, 0x4680d686nat, 0x3cd115276d928int, 0, 0x40cae279246b8int);
    lemma_power_step(2, 0x477be711eceddnat, 0, 1, 1, 2);
    lemma_power_step(2, 0x477be711eceddnat, 1, 2, 1, 8);
    lemma_power_step(2, 0x477be711eceddnat, 3, 8, 1, 128);
    lemma_power_step(2, 0x477be711eceddnat, 7, 128, 1, 32768);
    lemma_power_step(2, 0x477be711eceddnat, 15, 32768, 0, 0x40000000int);
    lemma_power_step(2, 0x477be711eceddnat, 30, 0x40000000int, 1, 0x29d680a68d39bint);
    lemma_power_step(2, 0x477be711eceddnat, 61, 0x29d680a68d39bint, 0, 0x20be15e615457int);
    lemma_power_step(2, 0x477be711eceddnat, 122, 0x20be15e615457int, 0, 0x2bc4babc770c3int);
    lemma_power_step(2, 0x477be711eceddnat, 244, 0x2bc4babc770c3int, 1, 0x132ec102a2d2bint);
    lemma_power_step(2, 0x477be711eceddnat, 489, 0x132ec102a2d2bint, 1, 0x103b9ea5fcc54int);
    lemma_power_step(2, 0x477be711eceddnat, 979, 0x103b9ea5fcc54int, 0, 0x13a5ef11f9fbbint);
    lemma_power_step(2, 0x477be711eceddnat, 1958, 0x13a5ef11f9fbbint, 1, 0x18da7f825682eint);
    lemma_power_step(2, 0x477be711eceddnat, 3917, 0x18da7f825682eint, 1, 0x18c7fae336b79int);
    lemma_power_step(2, 0x477be711eceddnat, 7835, 0x18c7fae336b79int, 0, 0x45d8d6be18e38int);
    lemma_power_step(2, 0x477be711eceddnat, 15670, 0x45d8d6be18e38int, 1, 0x20bbf410ca712int);
    lemma_power_step(2, 0x477be711eceddnat, 31341, 0x20bbf410ca712int, 1, 0x2812b37040403int);
    lemma_power_step(2, 0x477be711eceddnat, 62683, 0x2812b37040403int, 1, 0x15c6fa1136f22int);
    lemma_power_step(2, 0x477be711eceddnat, 125367, 0x15c6fa1136f22int, 1, 0x1913e8a53d497int);
    lemma_power_step(2, 0x477be711eceddnat, 250735, 0x1913e8a53d497int, 1, 0x2593d2107af6cint);
    lemma_power_step(2, 0x477be711eceddnat, 501471, 0x2593d2107af6cint, 1, 0x2cf3d79d4c79eint);
    lemma_power_step(2, 0x477be711eceddnat, 1002943, 0x2cf3d79d4c79eint, 1, 0x1f4ab31d20d8aint);
    lemma_power_step(2, 0x477be711eceddnat, 2005887, 0x1f4ab31d20d8aint, 1, 0x17068e29c52baint);
    lemma_power_step(2, 0x477be711eceddnat, 4011775, 0x17068e29c52baint, 0, 0x93622cd2a820int);
    lemma_power_step(2, 0x477be711eceddnat, 8023550, 0x93622cd2a820int, 1, 0x1a18645c842cfint);
    lemma_power_step(2, 0x477be711eceddnat, 16047101, 0x1a18645c842cfint, 0, 0xf207633d75aeint);
    lemma_power_step(2, 0x477be711eceddnat, 32094202, 0xf207633d75aeint, 1, 0x295902bc23212int);
    lemma_power_step(2, 0x477be711eceddnat, 64188405, 0x295902bc23212int, 1, 0x19e1d1532749cint);
    lemma_power_step(2, 0x477be711eceddnat, 128376811, 0x19e1d1532749cint, 1, 0xceaf55e8d720int);
    lemma_power_step(2, 0x477be711eceddnat, 256753623, 0xceaf55e8d720int, 0, 0x3230fa18f39c0int);
    lemma_power_step(2, 0x477be711eceddnat, 513507246, 0x3230fa18f39c0int, 0, 0x4735c3113b127int);
    lemma_certified_start(0x477be711eceddnat, 2);
    lemma_certified_factor(0x477be711eceddnat, 2, 1, Seq::empty(), 2);
    lemma_certified_again(0x477be711eceddnat, 2, 2, Seq::empty().push(2), 2);
    lemma_certified_factor(0x477be711eceddnat, 2, 4, Seq::empty().push(2), 3);
    lemma_certified_factor(0x477be711eceddnat, 2, 12, Seq::empty().push(2).push(3), 7);
    lemma_certified_factor(0x477be711eceddnat, 2, 84, Seq::empty().push(2).push(3).push(7), 23);
    lemma_certified_factor(0x477be711eceddnat, 2, 1932, Seq::empty().push(2).push(3).push(7).push(23), 531581);
    lemma_certified_factor(0x477be711eceddnat, 2, 0x3d36ff5cnat, Seq::empty().push(2).push(3).push(7).push(23).push(531581), 1224481);
    lemma_criterion(0x477be711eceddnat, 2, Seq::empty().push(2).push(3).push(7).push(23).push(531581).push(1224481));
}

/// A power of 2 modulo `p = 4434155615661930479`.
proof fn lemma_power_7()
    ensures
        power_mod(2, 0xf62524283954nat, 0x3d89490a0e5537efnat) == 0xce21f2f17f01c46int,
{
    lemma_power_zero(2, 0x3d89490a0e5537efnat);
    lemma_power_step(2, 0x3d89490a0e5537efnat, 0, 1, 1, 2);
    lemma_power_step(2, 0x3d89490a0e5537efnat, 1, 2, 1, 8);
    lemma_power_step(2, 0x3d89490a0e5537efnat, 3, 8, 1, 128);
    lemma_power_step(2, 0x3d89490a0e5537efnat, 7, 128, 1, 32768);
    lemma_power_step(2, 0x3d89490a0e5537efnat, 15, 32768, 0, 0x40000000int);
    lemma_power_step(2, 0x3d89490a0e5537efnat, 30, 0x40000000int, 1, 0x2000000000000000int);
    lemma_power_step(2, 0x3d89490a0e5537efnat, 61, 0x2000000000000000int, 1, 0x2c8066e92f8cd0d3int);
    lemma_power_step(2, 0x3d89490a0e5537efnat, 123, 0x2c8066e92f8cd0d3int, 0, 0x2d77b9a03135dfbint);
    lemma_power_step(2, 0x3d89490a0e5537efnat, 246, 0x2d77b9a03135dfbint, 0, 0x37e3c74ffa655f85int);
    lemma_power_step(2, 0x3d89490a0e5537efnat, 492, 0x37e3c74ffa655f85int, 0, 0x2a560162e14b2ea6int);
    lemma_power_step(2, 0x3d89490a0e5537efnat, 984, 0x2a560162e14b2ea6int, 1, 0x3aef685d93b71dc8int);
    lemma_power_step(2, 0x3d89490a0e5537efnat, 1969, 0x3aef685d93b71dc8int, 0, 0x1adc03359f6f21d8int);
    lemma_power_step(2, 0x3d89490a0e5537efnat, 3938, 0x1adc03359f6f21d8int, 0, 0x34f39547f60147ecint);
    lemma_power_step(2, 0x3d89490a0e5537efnat, 7876, 0x34f39547f60147ecint, 1, 0x3c107482afe82a32int);
    lemma_power_step(2, 0x3d89490a0e5537efnat, 15753, 0x3c107482afe82a32int, 0, 0x214bd991968921faint);
    lemma_power_step(2, 0x3d89490a0e5537efnat, 31506, 0x214bd991968921faint, 1, 0x8b2e176c6f8394eint);
    lemma_power_step(2, 0x3d89490a0e5537efnat, 63013, 0x8b2e176c6f8394eint, 0, 0x20b54f64eb507698int);
    lemma_power_step(2, 0x3d89490a0e5537efnat, 126026, 0x20b54f64eb507698int, 0, 0x1ca844d6295bd3a4int);
    lemma_power_step(2, 0x3d89490a0e5537efnat, 252052, 0x1ca844d6295bd3a4int, 1, 0x34829f9eb115dab1int);
    lemma_power_step(2, 0x3d89490a0e5537efnat, 504105, 0x34829f9eb115dab1int, 0, 0x349c11438f43e7e5int);
    lemma_power_step(2, 0x3d89490a0e5537efnat, 1008210, 0x349c11438f43e7e5int, 0, 0x18cb55621b7f37cdint);
    lemma_power_step(2, 0x3d89490a0e5537efnat, 2016420, 0x18cb55621b7f37cdint, 1, 0x3033baa2a7bdac57int);
    lemma_power_step(2, 0x3d89490a0e5537efnat, 4032841, 0x3033baa2a7bdac57int, 0, 0xe4cdca95a27b733int);
    lemma_power_step(2, 0x3d89490a0e5537efnat, 8065682, 0xe4cdca95a27b733int, 0, 0x5d0cd2b73372e74int);
    lemma_power_step(2, 0x3d89490a0e5537efnat, 16131364, 0x5d0cd2b73372e74int, 0, 0x18ffbe0266bd8abaint);
    lemma_power_step(2, 0x3d89490a0e5537efnat, 32262728, 0x18ffbe0266bd8abaint, 0, 0x25165ecbabd12b39int);
    lemma_power_step(2, 0x3d89490a0e5537efnat, 64525456, 0x25165ecbabd12b39int, 1, 0x18d4b144a01c0e98int);
    lemma_power_step(2, 0x3d89490a0e5537efnat, 129050913, 0x18d4b144a01c0e98int, 0, 0x1af854e5b5dd5c48int);
    lemma_power_step(2, 0x3d89490a0e5537efnat, 258101826, 0x1af854e5b5dd5c48int, 1, 0x13c31ecbd4b33bf4int);
    lemma_power_step(2, 0x3d89490a0e5537efnat, 516203653, 0x13c31ecbd4b33bf4int, 0, 0x38d24a2dab44796eint);
    lemma_power_step(2, 0x3d89490a0e5537efnat, 0x3d89490anat, 0x38d24a2dab44796eint, 0, 0x376adf73163d620cint);
    lemma_power_step(2, 0x3d89490a0e5537efnat, 0x7b129214nat, 0x376adf73163d620cint, 0, 0x1d02b745ec20c609int);
    lemma_power_step(2, 0x3d89490a0e5537efnat, 0xf6252428nat, 0x1d02b745ec20c609int, 0, 0x2e902665b1621f6cint);
    lemma_power_step(2, 0x3d89490a0e5537efnat, 0x1ec4a4850nat, 0x2e902665b1621f6cint, 0, 0x1e47a834ca20a2ddint);
    lemma_power_step(2, 0x3d89490a0e5537efnat, 0x3d89490a0nat, 0x1e47a834ca20a2ddint, 1, 0x31deff6db3ba3bf7int);
    lemma_power_step(2, 0x3d89490a0e5537efnat, 0x7b1292141nat, 0x31deff6db3ba3bf7int, 1, 0x126d334387113700int);
    lemma_power_step(2, 0x3d89490a0e5537efnat, 0xf62524283nat, 0x126d334387113700int, 1, 0x148e68f889ea3aaeint);
    lemma_power_step(2, 0x3d89490a0e5537efnat, 0x1ec4a48507nat, 0x148e68f889ea3aaeint, 0, 0x2079294ecbf1cb62int);
    lemma_power_step(2, 0x3d89490a0e5537efnat, 0x3d89490a0enat, 0x2079294ecbf1cb62int, 0, 0x1b59fae85de48cdfint);
    lemma_power_step(2, 0x3d89490a0e5537efnat, 0x7b1292141cnat, 0x1b59fae85de48cdfint, 1, 0x616c4141ac74e04int);
    lemma_power_step(2, 0x3d89490a0e5537efnat, 0xf625242839nat, 0x616c4141ac74e04int, 0, 0x1ca77151f3b634e4int);
    lemma_power_step(2, 0x3d89490a0e5537efnat, 0x1ec4a485072nat, 0x1ca77151f3b634e4int, 1, 0x3c07f87d054b8f16int);
    lemma_power_step(2, 0x3d89490a0e5537efnat, 0x3d89490a0e5nat, 0x3c07f87d054b8f16int, 0, 0x2dee1cec67e74cb6int);
    lemma_power_step(2, 0x3d89490a0e5537efnat, 0x7b1292141canat, 0x2dee1cec67e74cb6int, 1, 0xf1993d8c1c0544int);
    lemma_power_step(2, 0x3d89490a0e5537efnat, 0xf6252428395nat, 0xf1993d8c1c0544int, 0, 0x3a3e5ae7e4a49463int);
    lemma_power_step(2, 0x3d89490a0e5537efnat, 0x1ec4a485072anat, 0x3a3e5ae7e4a49463int, 1, 0xc04bfc1af410e78int);
    lemma_power_step(2, 0x3d89490a0e5537efnat, 0x3d89490a0e55nat, 0xc04bfc1af410e78int, 0, 0x34870f574c88fea4int);
    lemma_power_step(2, 0x3d89490a0e5537efnat, 0x7b1292141caanat, 0x34870f574c88fea4int, 0, 0xce21f2f17f01c46int);
}

/// A power of 2 modulo `p = 4434155615661930479`.
proof fn lemma_power_8()
    ensures
        power_mod(2, 0x3d89490a0e5537eenat, 0x3d89490a0e5537efnat) == 1,
{
    lemma_power_7();
    lemma_power_step(2, 0x3d89490a0e5537efnat, 0xf62524283954nat, 0xce21f2f17f01c46int, 1, 0x5b77db6aa49339fint);
    lemma_power_step(2, 0x3d89490a0e5537efnat, 0x1ec4a485072a9nat, 0x5b77db6aa49339fint, 1, 0x2fdc5d19fa52b259int);
    lemma_power_step(2, 0x3d89490a0e5537efnat, 0x3d89490a0e553nat, 0x2fdc5d19fa52b259int, 0, 0x14898c098244b5cint);
    lemma_power_step(2, 0x3d89490a0e5537efnat, 0x7b1292141caa6nat, 0x14898c098244b5cint, 1, 0x17b67b460415083dint);
    lemma_power_step(2, 0x3d89490a0e5537efnat, 0xf62524283954dnat, 0x17b67b460415083dint, 1, 0x24f23448f7d458f8int);
    lemma_power_step(2, 0x3d89490a0e5537efnat, 0x1ec4a485072a9bnat, 0x24f23448f7d458f8int, 1, 0x2ba22db3dc836763int);
    lemma_power_step(2, 0x3d89490a0e5537efnat, 0x3d89490a0e5537nat, 0x2ba22db3dc836763int, 1, 0x1c67082d4b335624int);
    lemma_power_step(2, 0x3d89490a0e5537efnat, 0x7b1292141caa6fnat, 0x1c67082d4b335624int, 1, 0x3b3d9a446bd6321eint);
    lemma_power_step(2, 0x3d89490a0e5537efnat, 0xf62524283954dfnat, 0x3b3d9a446bd6321eint, 1, 0x5f0bd6f3d822535int);
    lemma_power_step(2, 0x3d89490a0e5537efnat, 0x1ec4a485072a9bfnat, 0x5f0bd6f3d822535int, 0, 0x3450710bff154228int);
    lemma_power_step(2, 0x3d89490a0e5537efnat, 0x3d89490a0e5537enat, 0x3450710bff154228int, 1, 0xcbf2b24783b2ed6int);
    lemma_power_step(2, 0x3d89490a0e5537efnat, 0x7b1292141caa6fdnat, 0xcbf2b24783b2ed6int, 1, 0xc75320bd274152dint);
    lemma_power_step(2, 0x3d89490a0e5537efnat, 0xf62524283954dfbnat, 0xc75320bd274152dint, 1, 1);
    lemma_power_step(2, 0x3d89490a0e5537efnat, 0x1ec4a485072a9bf7nat, 1, 0, 1);
}

/// `p = 4434155615661930479` is prime: `q = 1257559732178653` is a prime above
/// the square root of `p` that divides `p - 1`, 2 to the power `p - 1` is one
/// modulo `p`, and 2 to the power `(p - 1) / q`, less one, has an inverse
/// modulo `p`.
proof fn lemma_prime_4434155615661930479()
    ensures
        is_prime(0x3d89490a0e5537efnat),
{
    lemma_prime_1257559732178653();
    lemma_power_8();
    lemma_power_zero(2, 0x3d89490a0e5537efnat);
    lemma_power_step(2, 0x3d89490a0e5537efnat, 0, 1, 1, 2);
    lemma_power_step(2, 0x3d89490a0e5537efnat, 1, 2, 1, 8);
    lemma_power_step(2, 0x3d89490a0e5537efnat, 3, 8, 0, 64);
    lemma_power_step(2, 0x3d89490a0e5537efnat, 6, 64, 1, 8192);
    lemma_power_step(2, 0x3d89490a0e5537efnat, 13, 8192, 1, 134217728);
    lemma_power_step(2, 0x3d89490a0e5537efnat, 27, 134217728, 1, 0x80000000000000int);
    lemma_power_step(2, 0x3d89490a0e5537efnat, 55, 0x80000000000000int, 0, 0x1c26e743a8c7c6f4int);
    lemma_power_step(2, 0x3d89490a0e5537efnat, 110, 0x1c26e743a8c7c6f4int, 0, 0x13b13e905a0913e5int);
    lemma_power_step(2, 0x3d89490a0e5537efnat, 220, 0x13b13e905a0913e5int, 0, 0x16ca2eff00739684int);
    lemma_power_step(2, 0x3d89490a0e5537efnat, 440, 0x16ca2eff00739684int, 1, 0x1e75ec5cec7b6a79int);
    lemma_power_step(2, 0x3d89490a0e5537efnat, 881, 0x1e75ec5cec7b6a79int, 1, 0x2666d99336976efaint);
    lemma_power_step(2, 0x3d89490a0e5537efnat, 1763, 0x2666d99336976efaint, 0, 0x5c52cd00a1f4ba7int);
    lemma_criterion_large_factor(0x3d89490a0e5537efnat, 2, 0x477be711eceddnat, 0x5c52cd00a1f4ba7nat, 0xe0605543c5b9ae3nat);
}

/// A power of 2 modulo `p = 172054593956031949258510691`.
proof fn lemma_power_9()
    ensures
        power_mod(2, 0x8e51fa3a480fnat, 0x8e51fa3a480f89f9de5163nat) == 0x3d2d2b345caa227c9ffe31int,
{
    lemma_power_zero(2, 0x8e51fa3a480f89f9de5163nat);
    lemma_power_step(2, 0x8e51fa3a480f89f9de5163nat, 0, 1, 1, 2);
    lemma_power_step(2, 0x8e51fa3a480f89f9de5163nat, 1, 2, 0, 4);
    lemma_power_step(2, 0x8e51fa3a480f89f9de5163nat, 2, 4, 0, 16);
    lemma_power_step(2, 0x8e51fa3a480f89f9de5163nat, 4, 16, 0, 256);
    lemma_power_step(2, 0x8e51fa3a480f89f9de5163nat, 8, 256, 1, 131072);
    lemma_power_step(2, 0x8e51fa3a480f89f9de5163nat, 17, 131072, 1, 0x800000000int);
    lemma_power_step(2, 0x8e51fa3a480f89f9de5163nat, 35, 0x800000000int, 1, 0x800000000000000000int);
    lemma_power_step(2, 0x8e51fa3a480f89f9de5163nat, 71, 0x800000000000000000int, 0, 0xdc182ff92aa43153d0515int);
    lemma_power_step(2, 0x8e51fa3a480f89f9de5163nat, 142, 0xdc182ff92aa43153d0515int, 0, 0x50216722b39b0f43782d1dint);
    lemma_power_step(2, 0x8e51fa3a480f89f9de5163nat, 284, 0x50216722b39b0f43782d1dint, 1, 0x38c675fed2d973835dc47int);
    lemma_power_step(2, 0x8e51fa3a480f89f9de5163nat, 569, 0x38c675fed2d973835dc47int, 0, 0x35e332c8dc7d5a6627d8f4int);
    lemma_power_step(2, 0x8e51fa3a480f89f9de5163nat, 1138, 0x35e332c8dc7d5a6627d8f4int, 1, 0x85f3a41a980b17867e82d3int);
    lemma_power_step(2, 0x8e51fa3a480f89f9de5163nat, 2277, 0x85f3a41a980b17867e82d3int, 0, 0x43b392323f280f763646b6int);
    lemma_power_step(2, 0x8e51fa3a480f89f9de5163nat, 4554, 0x43b392323f280f763646b6int, 0, 0x2977831f646ac033a03262int);
    lemma_power_step(2, 0x8e51fa3a480f89f9de5163nat, 9108, 0x2977831f646ac033a03262int, 0, 0x4e0db61655654205b1760dint);
    lemma_power_step(2, 0x8e51fa3a480f89f9de5163nat, 18216, 0x4e0db61655654205b1760dint, 1, 0x2e49aabfcb61c4183f6e06int);
    lemma_power_step(2, 0x8e51fa3a480f89f9de5163nat, 36433, 0x2e49aabfcb61c4183f6e06int, 1, 0x50304d9b42861517348a7eint);
    lemma_power_step(2, 0x8e51fa3a480f89f9de5163nat, 72867, 0x50304d9b42861517348a7eint, 1, 0x4c45e29d534e82765168d9int);
    lemma_power_step(2, 0x8e51fa3a480f89f9de5163nat, 145735, 0x4c45e29d534e82765168d9int, 1, 0x7797534895c918502ecdf2int);
    lemma_power_step(2, 0x8e51fa3a480f89f9de5163nat, 291471, 0x7797534895c918502ecdf2int, 1, 0x17a0c95cc0e8e3f23081b7int);
    lemma_power_step(2, 0x8e51fa3a480f89f9de5163nat, 582943, 0x17a0c95cc0e8e3f23081b7int, 1, 0x185d4a076a55e5ea8f99b4int);
    lemma_power_step(2, 0x8e51fa3a480f89f9de5163nat, 1165887, 0x185d4a076a55e5ea8f99b4int, 0, 0x5386ec1398e57682a533b0int);
    lemma_power_step(2, 0x8e51fa3a480f89f9de5163nat, 2331774, 0x5386ec1398e57682a533b0int, 1, 0x37b5928f51755ebc856d8dint);
    lemma_power_step(2, 0x8e51fa3a480f89f9de5163nat, 4663549, 0x37b5928f51755ebc856d8dint, 0, 0x4f7388784a8e2b0db12d4dint);
    lemma_power_step(2, 0x8e51fa3a480f89f9de5163nat, 9327098, 0x4f7388784a8e2b0db12d4dint, 0, 0x378f0466d364b5d80341b5int);
    lemma_power_step(2, 0x8e51fa3a480f89f9de5163nat, 18654196, 0x378f0466d364b5d80341b5int, 0, 0x970ec33241919b2086ebbint);
    lemma_power_step(2, 0x8e51fa3a480f89f9de5163nat, 37308392, 0x970ec33241919b2086ebbint, 1, 0x13ec758d3689accc3467a8int);
    lemma_power_step(2, 0x8e51fa3a480f89f9de5163nat, 74616785, 0x13ec758d3689accc3467a8int, 1, 0x6ebf50d0b858c67a0c487bint);
    lemma_power_step(2, 0x8e51fa3a480f89f9de5163nat, 149233571, 0x6ebf50d0b858c67a0c487bint, 1, 0x44557dfc5f56b786d05d73int);
    lemma_power_step(2, 0x8e51fa3a480f89f9de5163nat, 298467143, 0x44557dfc5f56b786d05d73int, 0, 0x3dae6f56e4cce22fedbfdint);
    lemma_power_step(2, 0x8e51fa3a480f89f9de5163nat, 596934286, 0x3dae6f56e4cce22fedbfdint, 1, 0x80ea840548c643dfd9ab15int);
    lemma_power_step(2, 0x8e51fa3a480f89f9de5163nat, 0x4728fd1dnat, 0x80ea840548c643dfd9ab15int, 0, 0x62a7e115202f5a365b6418int);
    lemma_power_step(2, 0x8e51fa3a480f89f9de5163nat, 0x8e51fa3anat, 0x62a7e115202f5a365b6418int, 0, 0x7c89e57fe5f9aa57a0c0f1int);
    lemma_power_step(2, 0x8e51fa3a480f89f9de5163nat, 0x11ca3f474nat, 0x7c89e57fe5f9aa57a0c0f1int, 1, 0x1436dc979a4add46956cint);
    lemma_power_step(2, 0x8e51fa3a480f89f9de5163nat, 0x23947e8e9nat, 0x1436dc979a4add46956cint, 0, 0x203f63930237c3d1651cd2int);
    lemma_power_step(2, 0x8e51fa3a480f89f9de5163nat, 0x4728fd1d2nat, 0x203f63930237c3d1651cd2int, 0, 0x8a1d057f464f1d3d6b4f51int);
    lemma_power_step(2, 0x8e51fa3a480f89f9de5163nat, 0x8e51fa3a4nat, 0x8a1d057f464f1d3d6b4f51int, 1, 0x47228dcb4751e97261279bint);
    lemma_power_step(2, 0x8e51fa3a480f89f9de5163nat, 0x11ca3f4749nat, 0x47228dcb4751e97261279bint, 0, 0x2fdcb64651f03ffcf134d2int);
    lemma_power_step(2, 0x8e51fa3a480f89f9de5163nat, 0x23947e8e92nat, 0x2fdcb64651f03ffcf134d2int, 0, 0x59abb51c71cfffa70bee96int);
    lemma_power_step(2, 0x8e51fa3a480f89f9de5163nat, 0x4728fd1d24nat, 0x59abb51c71cfffa70bee96int, 0, 0x6a0a95f07f4c7457c3941bint);
    lemma_power_step(2, 0x8e51fa3a480f89f9de5163nat, 0x8e51fa3a48nat, 0x6a0a95f07f4c7457c3941bint, 0, 0x36fd897330831078f2d642int);
    lemma_power_step(2, 0x8e51fa3a480f89f9de5163nat, 0x11ca3f47490nat, 0x36fd897330831078f2d642int, 0, 0x1f637ed22f7c25bec51748int);
    lemma_power_step(2, 0x8e51fa3a480f89f9de5163nat, 0x23947e8e920nat, 0x1f637ed22f7c25bec51748int, 0, 0x2e916782cd941ad232ff96int);
    lemma_power_step(2, 0x8e51fa3a480f89f9de5163nat, 0x4728fd1d240nat, 0x2e916782cd941ad232ff96int, 0, 0x127a2886a0adc68d1ba0fbint);
    lemma_power_step(2, 0x8e51fa3a480f89f9de5163nat, 0x8e51fa3a480nat, 0x127a2886a0adc68d1ba0fbint, 1, 0x78c293b8ee4d2278ca0e42int);
    lemma_power_step(2, 0x8e51fa3a480f89f9de5163nat, 0x11ca3f474901nat, 0x78c293b8ee4d2278ca0e42int, 1, 0xbf187c3b787914b15122fint);
    lemma_power_step(2, 0x8e51fa3a480f89f9de5163nat, 0x23947e8e9203nat, 0xbf187c3b787914b15122fint, 1, 0x2c37f4df9a08c8a18ed882int);
    lemma_power_step(2, 0x8e51fa3a480f89f9de5163nat, 0x4728fd1d2407nat, 0x2c37f4df9a08c8a18ed882int, 1, 0x3d2d2b345caa227c9ffe31int);
}

/// A power of 2 modulo `p = 172054593956031949258510691`.
proof fn lemma_power_10()
    ensures
        power_mod(2, 0x8e51fa3a480f89f9de5162nat, 0x8e51fa3a480f89f9de5163nat) == 1,
{
    lemma_power_9();
    lemma_power_step(2, 0x8e51fa3a480f89f9de5163nat, 0x8e51fa3a480fnat, 0x3d2d2b345caa227c9ffe31int, 1, 0x5059881b3896b2179df379int);
    lemma_power_step(2, 0x8e51fa3a480f89f9de5163nat, 0x11ca3f474901fnat, 0x5059881b3896b2179df379int, 0, 0x341ff9a96f6a84d7e3474eint);
    lemma_power_step(2, 0x8e51fa3a480f89f9de5163nat, 0x23947e8e9203enat, 0x341ff9a96f6a84d7e3474eint, 0, 0x65166c954359a2c4eb03deint);
    lemma_power_step(2, 0x8e51fa3a480f89f9de5163nat, 0x4728fd1d2407cnat, 0x65166c954359a2c4eb03deint, 0, 0x8ab3efe4032c12ea833cb3int);
    lemma_power_step(2, 0x8e51fa3a480f89f9de5163nat, 0x8e51fa3a480f8nat, 0x8ab3efe4032c12ea833cb3int, 1, 0x8f1a3ce3ca670b8ec4713int);
    lemma_power_step(2, 0x8e51fa3a480f89f9de5163nat, 0x11ca3f474901f1nat, 0x8f1a3ce3ca670b8ec4713int, 0, 0x66048d66e9621d85914fc9int);
    lemma_power_step(2, 0x8e51fa3a480f89f9de5163nat, 0x23947e8e9203e2nat, 0x66048d66e9621d85914fc9int, 0, 0x582f2ecef2a1158b5e3f92int);
    lemma_power_step(2, 0x8e51fa3a480f89f9de5163nat, 0x4728fd1d2407c4nat, 0x582f2ecef2a1158b5e3f92int, 1, 0x123f234f441ca9ed05544bint);
    lemma_power_step(2, 0x8e51fa3a480f89f9de5163nat, 0x8e51fa3a480f89nat, 0x123f234f441ca9ed05544bint, 1, 0x5462e887d5aac92e84cf24int);
    lemma_power_step(2, 0x8e51fa3a480f89f9de5163nat, 0x11ca3f474901f13nat, 0x5462e887d5aac92e84cf24int, 1, 0x34d563b2e0f1ac00ca908dint);
    lemma_power_step(2, 0x8e51fa3a480f89f9de5163nat, 0x23947e8e9203e27nat, 0x34d563b2e0f1ac00ca908dint, 1, 0x38c412cb1835871e06574dint);
    lemma_power_step(2, 0x8e51fa3a480f89f9de5163nat, 0x4728fd1d2407c4fnat, 0x38c412cb1835871e06574dint, 1, 0x40df06cb3bbcc95e71213aint);
    lemma_power_step(2, 0x8e51fa3a480f89f9de5163nat, 0x8e51fa3a480f89fnat, 0x40df06cb3bbcc95e71213aint, 1, 0x605b87e66460b34b7784efint);
    lemma_power_step(2, 0x8e51fa3a480f89f9de5163nat, 0x11ca3f474901f13fnat, 0x605b87e66460b34b7784efint, 0, 0x6ac1a5720bc5c575797543int);
    lemma_power_step(2, 0x8e51fa3a480f89f9de5163nat, 0x23947e8e9203e27enat, 0x6ac1a5720bc5c575797543int, 0, 0x4c2020e81ede1716be6acaint);
    lemma_power_step(2, 0x8e51fa3a480f89f9de5163nat, 0x4728fd1d2407c4fcnat, 0x4c2020e81ede1716be6acaint, 1, 0x6ce40075badb38177b3930int);
    lemma_power_step(2, 0x8e51fa3a480f89f9de5163nat, 0x8e51fa3a480f89f9nat, 0x6ce40075badb38177b3930int, 1, 0x1df47ea1086c20a5722911int);
    lemma_power_step(2, 0x8e51fa3a480f89f9de5163nat, 0x11ca3f474901f13f3nat, 0x1df47ea1086c20a5722911int, 1, 0x590200e36016a23695041bint);
    lemma_power_step(2, 0x8e51fa3a480f89f9de5163nat, 0x23947e8e9203e27e7nat, 0x590200e36016a23695041bint, 0, 0x1b74aad27315ad66325ecfint);
    lemma_power_step(2, 0x8e51fa3a480f89f9de5163nat, 0x4728fd1d2407c4fcenat, 0x1b74aad27315ad66325ecfint, 1, 0x244c1fac50c379053b71f1int);
    lemma_power_step(2, 0x8e51fa3a480f89f9de5163nat, 0x8e51fa3a480f89f9dnat, 0x244c1fac50c379053b71f1int, 1, 0x2f733f30cb7f2abbbb42dbint);
    lemma_power_step(2, 0x8e51fa3a480f89f9de5163nat, 0x11ca3f474901f13f3bnat, 0x2f733f30cb7f2abbbb42dbint, 1, 0x31c0aafe3e4683bace20bfint);
    lemma_power_step(2, 0x8e51fa3a480f89f9de5163nat, 0x23947e8e9203e27e77nat, 0x31c0aafe3e4683bace20bfint, 1, 0x2a52dfbaafcf31d7cd126eint);
    lemma_power_step(2, 0x8e51fa3a480f89f9de5163nat, 0x4728fd1d2407c4fcefnat, 0x2a52dfbaafcf31d7cd126eint, 0, 0x670f296d1b9fa1d37ae2e0int);
    lemma_power_step(2, 0x8e51fa3a480f89f9de5163nat, 0x8e51fa3a480f89f9denat, 0x670f296d1b9fa1d37ae2e0int, 0, 0x7dc61e1e370478d5a2b787int);
    lemma_power_step(2, 0x8e51fa3a480f89f9de5163nat, 0x11ca3f474901f13f3bcnat, 0x7dc61e1e370478d5a2b787int, 1, 0x2f116d04070c9170f96dcdint);
    lemma_power_step(2, 0x8e51fa3a480f89f9de5163nat, 0x23947e8e9203e27e779nat, 0x2f116d04070c9170f96dcdint, 0, 0x4c04d7e21e95f0d06dc3b6int);
    lemma_power_step(2, 0x8e51fa3a480f89f9de5163nat, 0x4728fd1d2407c4fcef2nat, 0x4c04d7e21e95f0d06dc3b6int, 1, 0x2e9e983d78bdddf4508ac8int);
    lemma_power_step(2, 0x8e51fa3a480f89f9de5163nat, 0x8e51fa3a480f89f9de5nat, 0x2e9e983d78bdddf4508ac8int, 0, 0x3116a58f001e29f9b0ce12int);
    lemma_power_step(2, 0x8e51fa3a480f89f9de5163nat, 0x11ca3f474901f13f3bcanat, 0x3116a58f001e29f9b0ce12int, 0, 0x87a2426ace6cd36477d58fint);
    lemma_power_step(2, 0x8e51fa3a480f89f9de5163nat, 0x23947e8e9203e27e7794nat, 0x87a2426ace6cd36477d58fint, 0, 0x665c986716c02fb3be04d7int);
    lemma_power_step(2, 0x8e51fa3a480f89f9de5163nat, 0x4728fd1d2407c4fcef28nat, 0x665c986716c02fb3be04d7int, 1, 0x3419d157539cd2bc522618int);
    lemma_power_step(2, 0x8e51fa3a480f89f9de5163nat, 0x8e51fa3a480f89f9de51nat, 0x3419d157539cd2bc522618int, 0, 0x1baeb5da673f8450f40cdfint);
    lemma_power_step(2, 0x8e51fa3a480f89f9de5163nat, 0x11ca3f474901f13f3bca2nat, 0x1baeb5da673f8450f40cdfint, 1, 0x6d9e652ad2d1533a972396int);
    lemma_power_step(2, 0x8e51fa3a480f89f9de5163nat, 0x23947e8e9203e27e77945nat, 0x6d9e652ad2d1533a972396int, 1, 0x3573363ff3805add115a5fint);
    lemma_power_step(2, 0x8e51fa3a480f89f9de5163nat, 0x4728fd1d2407c4fcef28bnat, 0x3573363ff3805add115a5fint, 0, 0x156542d174031ff3f5c6b4int);
    lemma_power_step(2, 0x8e51fa3a480f89f9de5163nat, 0x8e51fa3a480f89f9de516nat, 0x156542d174031ff3f5c6b4int, 0, 0x6762dfa4bbf0188b1f380cint);
    lemma_power_step(2, 0x8e51fa3a480f89f9de5163nat, 0x11ca3f474901f13f3bca2cnat, 0x6762dfa4bbf0188b1f380cint, 0, 0x22e8d692e5469dec547de1int);
    lemma_power_step(2, 0x8e51fa3a480f89f9de5163nat, 0x23947e8e9203e27e779458nat, 0x22e8d692e5469dec547de1int, 1, 0x8e51fa3a480f89f9de5162int);
    lemma_power_step(2, 0x8e51fa3a480f89f9de5163nat, 0x4728fd1d2407c4fcef28b1nat, 0x8e51fa3a480f89f9de5162int, 0, 1);
}

/// `p = 172054593956031949258510691` is prime: `q = 4434155615661930479` is a
/// prime above the square root of `p` that divides `p - 1`, 2 to the power `p
/// - 1` is one modulo `p`, and 2 to the power `(p - 1) / q`, less one, has an
/// inverse modulo `p`.
proof fn lemma_prime_172054593956031949258510691()
    ensures
        is_prime(0x8e51fa3a480f89f9de5163nat),
{
    lemma_prime_4434155615661930479();
    lemma_power_10();
    lemma_power_zero(2, 0x8e51fa3a480f89f9de5163nat);
    lemma_power_step(2, 0x8e51fa3a480f89f9de5163nat, 0, 1, 1, 2);
    lemma_power_step(2, 0x8e51fa3a480f89f9de5163nat, 1, 2, 0, 4);
    lemma_power_step(2, 0x8e51fa3a480f89f9de5163nat, 2, 4, 0, 16);
    lemma_power_step(2, 0x8e51fa3a480f89f9de5163nat, 4, 16, 1, 512);
    lemma_power_step(2, 0x8e51fa3a480f89f9de5163nat, 9, 512, 0, 262144);
    lemma_power_step(2, 0x8e51fa3a480f89f9de5163nat, 18, 262144, 1, 0x2000000000int);
    lemma_power_step(2, 0x8e51fa3a480f89f9de5163nat, 37, 0x2000000000int, 0, 0x4000000000000000000int);
    lemma_power_step(2, 0x8e51fa3a480f89f9de5163nat, 74, 0x4000000000000000000int, 0, 0x1a74e286fa3389740b5ceeint);
    lemma_power_step(2, 0x8e51fa3a480f89f9de5163nat, 148, 0x1a74e286fa3389740b5ceeint, 0, 0x18022a3c94fb5abe38b23aint);
    lemma_power_step(2, 0x8e51fa3a480f89f9de5163nat, 296, 0x18022a3c94fb5abe38b23aint, 0, 0x106296d204c47fa1c30d00int);
    lemma_power_step(2, 0x8e51fa3a480f89f9de5163nat, 592, 0x106296d204c47fa1c30d00int, 0, 0x7c15f12b56f334bd67e16bint);
    lemma_power_step(2, 0x8e51fa3a480f89f9de5163nat, 1184, 0x7c15f12b56f334bd67e16bint, 0, 0x743f84f02c2f9d5906bb29int);
    lemma_power_step(2, 0x8e51fa3a480f89f9de5163nat, 2368, 0x743f84f02c2f9d5906bb29int, 0, 0x7b28d1a4405e26d3563f5int);
    lemma_power_step(2, 0x8e51fa3a480f89f9de5163nat, 4736, 0x7b28d1a4405e26d3563f5int, 1, 0x6254eb9f6323640014b112int);
    lemma_power_step(2, 0x8e51fa3a480f89f9de5163nat, 9473, 0x6254eb9f6323640014b112int, 0, 0x7758808a374e0fc3a27c3fint);
    lemma_power_step(2, 0x8e51fa3a480f89f9de5163nat, 18946, 0x7758808a374e0fc3a27c3fint, 0, 0x4a8e8d4c18d4c2ef28dd16int);
    lemma_power_step(2, 0x8e51fa3a480f89f9de5163nat, 37892, 0x4a8e8d4c18d4c2ef28dd16int, 1, 0x6c974deb57ac0b1f6a46b2int);
    lemma_power_step(2, 0x8e51fa3a480f89f9de5163nat, 75785, 0x6c974deb57ac0b1f6a46b2int, 0, 0x36e290adea0d2601877756int);
    lemma_power_step(2, 0x8e51fa3a480f89f9de5163nat, 151570, 0x36e290adea0d2601877756int, 1, 0x132576847a09341973e963int);
    lemma_power_step(2, 0x8e51fa3a480f89f9de5163nat, 303141, 0x132576847a09341973e963int, 0, 0x8a89765b0f71e90db5212aint);
    lemma_power_step(2, 0x8e51fa3a480f89f9de5163nat, 606282, 0x8a89765b0f71e90db5212aint, 1, 0x24ee0d6fa12915cc842070int);
    lemma_power_step(2, 0x8e51fa3a480f89f9de5163nat, 1212565, 0x24ee0d6fa12915cc842070int, 1, 0x183b962288e9ed655567b5int);
    lemma_power_step(2, 0x8e51fa3a480f89f9de5163nat, 2425131, 0x183b962288e9ed655567b5int, 1, 0x16bed9a81722043e1e1c9fint);
    lemma_power_step(2, 0x8e51fa3a480f89f9de5163nat, 4850263, 0x16bed9a81722043e1e1c9fint, 1, 0x5e841c09f42548932f99a6int);
    lemma_power_step(2, 0x8e51fa3a480f89f9de5163nat, 9700527, 0x5e841c09f42548932f99a6int, 1, 0x17f67aa7544fa935b02aafint);
    lemma_power_step(2, 0x8e51fa3a480f89f9de5163nat, 19401055, 0x17f67aa7544fa935b02aafint, 0, 0x43d06a01b28fc1632b40ebint);
    lemma_criterion_large_factor(0x8e51fa3a480f89f9de5163nat, 2, 0x3d89490a0e5537efnat, 0x43d06a01b28fc1632b40ebnat, 0x7f9d1382843bc75f2bbbb0nat);
}

/// A power of 2 modulo `p = 19757330305831588566944191468367130476339`.
proof fn lemma_power_11()
    ensures
        power_mod(2, 0xe83f0d9f73c3nat, 0x3a0fc367dcf0ff0a5a1db0b1b7c3093f33nat) == 0x31febdb3f3148e9101e3704b58ae610ff0int,
{
    lemma_power_zero(2, 0x3a0fc367dcf0ff0a5a1db0b1b7c3093f33nat);
    lemma_power_step(2, 0x3a0fc367dcf0ff0a5a1db0b1b7c3093f33nat, 0, 1, 1, 2);
    lemma_power_step(2, 0x3a0fc367dcf0ff0a5a1db0b1b7c3093f33nat, 1, 2, 1, 8);
    lemma_power_step(2, 0x3a0fc367dcf0ff0a5a1db0b1b7c3093f33nat, 3, 8, 1, 128);
    lemma_power_step(2, 0x3a0fc367dcf0ff0a5a1db0b1b7c3093f33nat, 7, 128, 0, 16384);
    lemma_power_step(2, 0x3a0fc367dcf0ff0a5a1db0b1b7c3093f33nat, 14, 16384, 1, 536870912);
    lemma_power_step(2, 0x3a0fc367dcf0ff0a5a1db0b1b7c3093f33nat, 29, 536870912, 0, 0x400000000000000int);
    lemma_power_step(2, 0x3a0fc367dcf0ff0a5a1db0b1b7c3093f33nat, 58, 0x400000000000000int, 0, 0x100000000000000000000000000000int);
    lemma_power_step(2, 0x3a0fc367dcf0ff0a5a1db0b1b7c3093f33nat, 116, 0x100000000000000000000000000000int, 0, 0x4c245bf482d64744bb8805fef3536d1ffint);
    lemma_power_step(2, 0x3a0fc367dcf0ff0a5a1db0b1b7c3093f33nat, 232, 0x4c245bf482d64744bb8805fef3536d1ffint, 0, 0x397d15b6bdea79eb97a5e717024903082fint);
    lemma_power_step(2, 0x3a0fc367dcf0ff0a5a1db0b1b7c3093f33nat, 464, 0x397d15b6bdea79eb97a5e717024903082fint, 0, 0x22647f06f9028a71c1caa53db47c486c40int);
    lemma_power_step(2, 0x3a0fc367dcf0ff0a5a1db0b1b7c3093f33nat, 928, 0x22647f06f9028a71c1caa53db47c486c40int, 1, 0x377c32b47f43c857bed41d173d70215c14int);
    lemma_power_step(2, 0x3a0fc367dcf0ff0a5a1db0b1b7c3093f33nat, 1857, 0x377c32b47f43c857bed41d173d70215c14int, 1, 0x180e8288367e05f0adc4bc81b452d6ed14int);
    lemma_power_step(2, 0x3a0fc367dcf0ff0a5a1db0b1b7c3093f33nat, 3715, 0x180e8288367e05f0adc4bc81b452d6ed14int, 1, 0x2c7c2aba6f91c852c7266c7eabfebd72c1int);
    lemma_power_step(2, 0x3a0fc367dcf0ff0a5a1db0b1b7c3093f33nat, 7431, 0x2c7c2aba6f91c852c7266c7eabfebd72c1int, 1, 0x27313dd838a322e18c500fe2afd46dcdccint);
    lemma_power_step(2, 0x3a0fc367dcf0ff0a5a1db0b1b7c3093f33nat, 14863, 0x27313dd838a322e18c500fe2afd46dcdccint, 1, 0x30f47a2bfa91415cdb9b18c2bd65566e5bint);
    lemma_power_step(2, 0x3a0fc367dcf0ff0a5a1db0b1b7c3093f33nat, 29727, 0x30f47a2bfa91415cdb9b18c2bd65566e5bint, 1, 0x1e8aa9594ccfe7d3e121bf33dc0f9a40e9int);
    lemma_power_step(2, 0x3a0fc367dcf0ff0a5a1db0b1b7c3093f33nat, 59455, 0x1e8aa9594ccfe7d3e121bf33dc0f9a40e9int, 0, 0x1c98d639fef863b561a3a596d36cc13a3cint);
    lemma_power_step(2, 0x3a0fc367dcf0ff0a5a1db0b1b7c3093f33nat, 118910, 0x1c98d639fef863b561a3a596d36cc13a3cint, 0, 0x18d1c5c0a7431a9b3f10d4969b39716813int);
    lemma_power_step(2, 0x3a0fc367dcf0ff0a5a1db0b1b7c3093f33nat, 237820, 0x18d1c5c0a7431a9b3f10d4969b39716813int, 0, 0x16c0a2cd70faa3f1bacda80416fc5dc6b1int);
    lemma_power_step(2, 0x3a0fc367dcf0ff0a5a1db0b1b7c3093f33nat, 475640, 0x16c0a2cd70faa3f1bacda80416fc5dc6b1int, 0, 0xfb37d1726add0bfacd4b76a69b7bb04d7int);
    lemma_power_step(2, 0x3a0fc367dcf0ff0a5a1db0b1b7c3093f33nat, 951280, 0xfb37d1726add0bfacd4b76a69b7bb04d7int, 1, 0x248ecbd103b0ffc66e54db042569446ed3int);
    lemma_power_step(2, 0x3a0fc367dcf0ff0a5a1db0b1b7c3093f33nat, 1902561, 0x248ecbd103b0ffc66e54db042569446ed3int, 1, 0xbb139af2acda13a3606e72037520f2b20int);
    lemma_power_step(2, 0x3a0fc367dcf0ff0a5a1db0b1b7c3093f33nat, 3805123, 0xbb139af2acda13a3606e72037520f2b20int, 0, 0x269c893c529a377ea577bf829e05d94d50int);
    lemma_power_step(2, 0x3a0fc367dcf0ff0a5a1db0b1b7c3093f33nat, 7610246, 0x269c893c529a377ea577bf829e05d94d50int, 1, 0xc45331a6e5cb102852f34713ce9688a3eint);
    lemma_power_step(2, 0x3a0fc367dcf0ff0a5a1db0b1b7c3093f33nat, 15220493, 0xc45331a6e5cb102852f34713ce9688a3eint, 1, 0x143b491cc5d62122f3de989021ec0a0e32int);
    lemma_power_step(2, 0x3a0fc367dcf0ff0a5a1db0b1b7c3093f33nat, 30440987, 0x143b491cc5d62122f3de989021ec0a0e32int, 0, 0x88581485cac63a5b8edda99102ac83481int);
    lemma_power_step(2, 0x3a0fc367dcf0ff0a5a1db0b1b7c3093f33nat, 60881974, 0x88581485cac63a5b8edda99102ac83481int, 0, 0x2db6266544fd4c9ae5cb5318523103fd7eint);
    lemma_power_step(2, 0x3a0fc367dcf0ff0a5a1db0b1b7c3093f33nat, 121763948, 0x2db6266544fd4c9ae5cb5318523103fd7eint, 1, 0x2d0a33528eaeb43dc5c887b5fd19571955int);
    lemma_power_step(2, 0x3a0fc367dcf0ff0a5a1db0b1b7c3093f33nat, 243527897, 0x2d0a33528eaeb43dc5c887b5fd19571955int, 1, 0x1f18c04dc1d04f62307c7a48bb09f53ac5int);
    lemma_power_step(2, 0x3a0fc367dcf0ff0a5a1db0b1b7c3093f33nat, 487055795, 0x1f18c04dc1d04f62307c7a48bb09f53ac5int, 1, 0x1486a1af37ddd08a2cf317da2567a0a90int);
    lemma_power_step(2, 0x3a0fc367dcf0ff0a5a1db0b1b7c3093f33nat, 974111591, 0x1486a1af37ddd08a2cf317da2567a0a90int, 1, 0x2c55229d495bfd641bc76cb13f388fd7f9int);
    lemma_power_step(2, 0x3a0fc367dcf0ff0a5a1db0b1b7c3093f33nat, 0x741f86cfnat, 0x2c55229d495bfd641bc76cb13f388fd7f9int, 1, 0x202de5782408c0010defba713b9dfc9aa9int);
    lemma_power_step(2, 0x3a0fc367dcf0ff0a5a1db0b1b7c3093f33nat, 0xe83f0d9fnat, 0x202de5782408c0010defba713b9dfc9aa9int, 0, 0x225bf446dd8e941e731637d8c1c3d43fa3int);
    lemma_power_step(2, 0x3a0fc367dcf0ff0a5a1db0b1b7c3093f33nat, 0x1d07e1b3enat, 0x225bf446dd8e941e731637d8c1c3d43fa3int, 1, 0x244539567ba700fed739cc6757d67482b3int);
    lemma_power_step(2, 0x3a0fc367dcf0ff0a5a1db0b1b7c3093f33nat, 0x3a0fc367dnat, 0x244539567ba700fed739cc6757d67482b3int, 1, 0x26d1ea42ca9b49279bc7cf2fc35a1da6fbint);
    lemma_power_step(2, 0x3a0fc367dcf0ff0a5a1db0b1b7c3093f33nat, 0x741f86cfbnat, 0x26d1ea42ca9b49279bc7cf2fc35a1da6fbint, 1, 0x2e388c6d36801431a725793163f23ab78bint);
    lemma_power_step(2, 0x3a0fc367dcf0ff0a5a1db0b1b7c3093f33nat, 0xe83f0d9f7nat, 0x2e388c6d36801431a725793163f23ab78bint, 0, 0x2663529f360ded4001e81d851b93ada050int);
    lemma_power_step(2, 0x3a0fc367dcf0ff0a5a1db0b1b7c3093f33nat, 0x1d07e1b3eenat, 0x2663529f360ded4001e81d851b93ada050int, 0, 0x31d31ecd1f3aad42e03d905b3aef79d79bint);
    lemma_power_step(2, 0x3a0fc367dcf0ff0a5a1db0b1b7c3093f33nat, 0x3a0fc367dcnat, 0x31d31ecd1f3aad42e03d905b3aef79d79bint, 1, 0x1db9f95afd75e3844e9a34f6beaa807cb4int);
    lemma_power_step(2, 0x3a0fc367dcf0ff0a5a1db0b1b7c3093f33nat, 0x741f86cfb9nat, 0x1db9f95afd75e3844e9a34f6beaa807cb4int, 1, 0xa966dbb59970fb8dc108cb9c5fb9ee9b9int);
    lemma_power_step(2, 0x3a0fc367dcf0ff0a5a1db0b1b7c3093f33nat, 0xe83f0d9f73nat, 0xa966dbb59970fb8dc108cb9c5fb9ee9b9int, 1, 0x2ebbb5f4da79945dfd07fd35ced066386eint);
    lemma_power_step(2, 0x3a0fc367dcf0ff0a5a1db0b1b7c3093f33nat, 0x1d07e1b3ee7nat, 0x2ebbb5f4da79945dfd07fd35ced066386eint, 1, 0xe8db97061aa95c9540af67c00ba9f0fcdint);
    lemma_power_step(2, 0x3a0fc367dcf0ff0a5a1db0b1b7c3093f33nat, 0x3a0fc367dcfnat, 0xe8db97061aa95c9540af67c00ba9f0fcdint, 0, 0x364033d858fbbb764a917b3777b05e772fint);
    lemma_power_step(2, 0x3a0fc367dcf0ff0a5a1db0b1b7c3093f33nat, 0x741f86cfb9enat, 0x364033d858fbbb764a917b3777b05e772fint, 0, 0x9094e3f79c4df79fae375a6fc9068ad40int);
    lemma_power_step(2, 0x3a0fc367dcf0ff0a5a1db0b1b7c3093f33nat, 0xe83f0d9f73cnat, 0x9094e3f79c4df79fae375a6fc9068ad40int, 0, 0x20ca7eb876a44fabbea92ad16e8c330269int);
    lemma_power_step(2, 0x3a0fc367dcf0ff0a5a1db0b1b7c3093f33nat, 0x1d07e1b3ee78nat, 0x20ca7eb876a44fabbea92ad16e8c330269int, 0, 0x15eedbb5fab12c8f75e79cda9ac381b462int);
    lemma_power_step(2, 0x3a0fc367dcf0ff0a5a1db0b1b7c3093f33nat, 0x3a0fc367dcf0nat, 0x15eedbb5fab12c8f75e79cda9ac381b462int, 1, 0xe8f49bb8a1a247db4f5cde82b85d61254int);
    lemma_power_step(2, 0x3a0fc367dcf0ff0a5a1db0b1b7c3093f33nat, 0x741f86cfb9e1nat, 0xe8f49bb8a1a247db4f5cde82b85d61254int, 1, 0x31febdb3f3148e9101e3704b58ae610ff0int);
}

/// A power of 2 modulo `p = 19757330305831588566944191468367130476339`.
proof fn lemma_power_12()
    ensures
        power_mod(2, 0xe83f0d9f73c3fc296876c2c6nat, 0x3a0fc367dcf0ff0a5a1db0b1b7c3093f33nat) == 0x2a3e96decd8f2696174552389c9a33a663int,
{
    lemma_power_11();
    lemma_power_step(2, 0x3a0fc367dcf0ff0a5a1db0b1b7c3093f33nat, 0xe83f0d9f73c3nat, 0x31febdb3f3148e9101e3704b58ae610ff0int, 1, 0x28940e0aa3b5bc3fd78ff2ee10cceafa36int);
    lemma_power_step(2, 0x3a0fc367dcf0ff0a5a1db0b1b7c3093f33nat, 0x1d07e1b3ee787nat, 0x28940e0aa3b5bc3fd78ff2ee10cceafa36int, 1, 0x1f9f60f27df863470f9a5af028d837d819int);
    lemma_power_step(2, 0x3a0fc367dcf0ff0a5a1db0b1b7c3093f33nat, 0x3a0fc367dcf0fnat, 0x1f9f60f27df863470f9a5af028d837d819int, 1, 0x8de99a58a5e3dbb883ed79ad4cd35c0c1int);
    lemma_power_step(2, 0x3a0fc367dcf0ff0a5a1db0b1b7c3093f33nat, 0x741f86cfb9e1fnat, 0x8de99a58a5e3dbb883ed79ad4cd35c0c1int, 1, 0x562e7225759ea8d33df56cce07f98dcf9int);
    lemma_power_step(2, 0x3a0fc367dcf0ff0a5a1db0b1b7c3093f33nat, 0xe83f0d9f73c3fnat, 0x562e7225759ea8d33df56cce07f98dcf9int, 1, 0xd50a14e4b606004688d9fc50d26a42e6int);
    lemma_power_step(2, 0x3a0fc367dcf0ff0a5a1db0b1b7c3093f33nat, 0x1d07e1b3ee787fnat, 0xd50a14e4b606004688d9fc50d26a42e6int, 1, 0x376bc29367cf8f72dc99b2c94e8c4f06acint);
    lemma_power_step(2, 0x3a0fc367dcf0ff0a5a1db0b1b7c3093f33nat, 0x3a0fc367dcf0ffnat, 0x376bc29367cf8f72dc99b2c94e8c4f06acint, 0, 0x1bdbf22bfdf1224c104fc6fe400c0acd96int);
    lemma_power_step(2, 0x3a0fc367dcf0ff0a5a1db0b1b7c3093f33nat, 0x741f86cfb9e1fenat, 0x1bdbf22bfdf1224c104fc6fe400c0acd96int, 0, 0x18a85c109555b69d036aa2f27a8fa55261int);
    lemma_power_step(2, 0x3a0fc367dcf0ff0a5a1db0b1b7c3093f33nat, 0xe83f0d9f73c3fcnat, 0x18a85c109555b69d036aa2f27a8fa55261int, 0, 0x76097baf1a072a710cb54d089b6e08b85int);
    lemma_power_step(2, 0x3a0fc367dcf0ff0a5a1db0b1b7c3093f33nat, 0x1d07e1b3ee787f8nat, 0x76097baf1a072a710cb54d089b6e08b85int, 0, 0x2d3389f0d18f360911e60b55fc82dae884int);
    lemma_power_step(2, 0x3a0fc367dcf0ff0a5a1db0b1b7c3093f33nat, 0x3a0fc367dcf0ff0nat, 0x2d3389f0d18f360911e60b55fc82dae884int, 1, 0x269e634e126636dc09aed1241bfbdfc8daint);
    lemma_power_step(2, 0x3a0fc367dcf0ff0a5a1db0b1b7c3093f33nat, 0x741f86cfb9e1fe1nat, 0x269e634e126636dc09aed1241bfbdfc8daint, 0, 0x2857ceec5a18f3267b00d1a9b46a62928int);
    lemma_power_step(2, 0x3a0fc367dcf0ff0a5a1db0b1b7c3093f33nat, 0xe83f0d9f73c3fc2nat, 0x2857ceec5a18f3267b00d1a9b46a62928int, 1, 0x399bd43d59b07eb256407677cd87e781abint);
    lemma_power_step(2, 0x3a0fc367dcf0ff0a5a1db0b1b7c3093f33nat, 0x1d07e1b3ee787f85nat, 0x399bd43d59b07eb256407677cd87e781abint, 0, 0x2c6296b297679b8efe838a12b00b4b2f8aint);
    lemma_power_step(2, 0x3a0fc367dcf0ff0a5a1db0b1b7c3093f33nat, 0x3a0fc367dcf0ff0anat, 0x2c6296b297679b8efe838a12b00b4b2f8aint, 0, 0xa08970127ab1b60601766a81ee3ee3f56int);
    lemma_power_step(2, 0x3a0fc367dcf0ff0a5a1db0b1b7c3093f33nat, 0x741f86cfb9e1fe14nat, 0xa08970127ab1b60601766a81ee3ee3f56int, 1, 0x225091a1a47ade858c3f7beef8c5fe4b40int);
    lemma_power_step(2, 0x3a0fc367dcf0ff0a5a1db0b1b7c3093f33nat, 0xe83f0d9f73c3fc29nat, 0x225091a1a47ade858c3f7beef8c5fe4b40int, 0, 0x30823a155a68ee51c1af19e125c9b458c1int);
    lemma_power_step(2, 0x3a0fc367dcf0ff0a5a1db0b1b7c3093f33nat, 0x1d07e1b3ee787f852nat, 0x30823a155a68ee51c1af19e125c9b458c1int, 1, 0x194f776ec114636eedb3957a699cac399fint);
    lemma_power_step(2, 0x3a0fc367dcf0ff0a5a1db0b1b7c3093f33nat, 0x3a0fc367dcf0ff0a5nat, 0x194f776ec114636eedb3957a699cac399fint, 1, 0x1baafc9c8d64519bc79020a72bc87d40c2int);
    lemma_power_step(2, 0x3a0fc367dcf0ff0a5a1db0b1b7c3093f33nat, 0x741f86cfb9e1fe14bnat, 0x1baafc9c8d64519bc79020a72bc87d40c2int, 0, 0x147c9c06065ff1f77f5a57af52f680550int);
    lemma_power_step(2, 0x3a0fc367dcf0ff0a5a1db0b1b7c3093f33nat, 0xe83f0d9f73c3fc296nat, 0x147c9c06065ff1f77f5a57af52f680550int, 1, 0x372af945776068376f908f9a93219c3b1dint);
    lemma_power_step(2, 0x3a0fc367dcf0ff0a5a1db0b1b7c3093f33nat, 0x1d07e1b3ee787f852dnat, 0x372af945776068376f908f9a93219c3b1dint, 0, 0xa2b42e24ada0eb5629ed37eb2ec3fcc5int);
    lemma_power_step(2, 0x3a0fc367dcf0ff0a5a1db0b1b7c3093f33nat, 0x3a0fc367dcf0ff0a5anat, 0xa2b42e24ada0eb5629ed37eb2ec3fcc5int, 0, 0xaa7a8351d8c3806a6aa91a761243a1adeint);
    lemma_power_step(2, 0x3a0fc367dcf0ff0a5a1db0b1b7c3093f33nat, 0x741f86cfb9e1fe14b4nat, 0xaa7a8351d8c3806a6aa91a761243a1adeint, 0, 0xf21f0db08f91a4668c7a5f4396095067eint);
    lemma_power_step(2, 0x3a0fc367dcf0ff0a5a1db0b1b7c3093f33nat, 0xe83f0d9f73c3fc2968nat, 0xf21f0db08f91a4668c7a5f4396095067eint, 0, 0x2453f1c53cb68be3e12603b91609bd9494int);
    lemma_power_step(2, 0x3a0fc367dcf0ff0a5a1db0b1b7c3093f33nat, 0x1d07e1b3ee787f852d0nat, 0x2453f1c53cb68be3e12603b91609bd9494int, 1, 0x371d03b3d686c578b5735edd3cc65e355int);
    lemma_power_step(2, 0x3a0fc367dcf0ff0a5a1db0b1b7c3093f33nat, 0x3a0fc367dcf0ff0a5a1nat, 0x371d03b3d686c578b5735edd3cc65e355int, 1, 0x5b91a63b75b74e358e3bc3ae9c249f37aint);
    lemma_power_step(2, 0x3a0fc367dcf0ff0a5a1db0b1b7c3093f33nat, 0x741f86cfb9e1fe14b43nat, 0x5b91a63b75b74e358e3bc3ae9c249f37aint, 1, 0x2b86fe68affac8141b270264579f7654baint);
    lemma_power_step(2, 0x3a0fc367dcf0ff0a5a1db0b1b7c3093f33nat, 0xe83f0d9f73c3fc29687nat, 0x2b86fe68affac8141b270264579f7654baint, 0, 0x387fbfca2a5ec5532ca440d4dc55fa4771int);
    lemma_power_step(2, 0x3a0fc367dcf0ff0a5a1db0b1b7c3093f33nat, 0x1d07e1b3ee787f852d0enat, 0x387fbfca2a5ec5532ca440d4dc55fa4771int, 1, 0x290661c70262979aa9e68f08f9c79dc42fint);
    lemma_power_step(2, 0x3a0fc367dcf0ff0a5a1db0b1b7c3093f33nat, 0x3a0fc367dcf0ff0a5a1dnat, 0x290661c70262979aa9e68f08f9c79dc42fint, 1, 0x32f9eadcaa6aae271df06bddb9b0db8a4bint);
    lemma_power_step(2, 0x3a0fc367dcf0ff0a5a1db0b1b7c3093f33nat, 0x741f86cfb9e1fe14b43bnat, 0x32f9eadcaa6aae271df06bddb9b0db8a4bint, 0, 0x20198b273dac0f19ec28700d64d29fab04int);
    lemma_power_step(2, 0x3a0fc367dcf0ff0a5a1db0b1b7c3093f33nat, 0xe83f0d9f73c3fc296876nat, 0x20198b273dac0f19ec28700d64d29fab04int, 1, 0x353189e5a17771332a8861896a75cf0163int);
    lemma_power_step(2, 0x3a0fc367dcf0ff0a5a1db0b1b7c3093f33nat, 0x1d07e1b3ee787f852d0ednat, 0x353189e5a17771332a8861896a75cf0163int, 1, 0xfdc95ff7f5f17dcb40f9be4ba1174498aint);
    lemma_power_step(2, 0x3a0fc367dcf0ff0a5a1db0b1b7c3093f33nat, 0x3a0fc367dcf0ff0a5a1dbnat, 0xfdc95ff7f5f17dcb40f9be4ba1174498aint, 0, 0x3504b9ffa61ee686340f06abf4fc71d097int);
    lemma_power_step(2, 0x3a0fc367dcf0ff0a5a1db0b1b7c3093f33nat, 0x741f86cfb9e1fe14b43b6nat, 0x3504b9ffa61ee686340f06abf4fc71d097int, 0, 0x29e4c795bf7a030302a560705a34408b50int);
    lemma_power_step(2, 0x3a0fc367dcf0ff0a5a1db0b1b7c3093f33nat, 0xe83f0d9f73c3fc296876cnat, 0x29e4c795bf7a030302a560705a34408b50int, 0, 0x19609c15392b9d4e771f2d6c9c224735f2int);
    lemma_power_step(2, 0x3a0fc367dcf0ff0a5a1db0b1b7c3093f33nat, 0x1d07e1b3ee787f852d0ed8nat, 0x19609c15392b9d4e771f2d6c9c224735f2int, 0, 0x2f8c83f2bb35a5beecc874c20536144a83int);
    lemma_power_step(2, 0x3a0fc367dcf0ff0a5a1db0b1b7c3093f33nat, 0x3a0fc367dcf0ff0a5a1db0nat, 0x2f8c83f2bb35a5beecc874c20536144a83int, 1, 0x19f498e691219408b8ccfa7950d4c8d8d2int);
    lemma_power_step(2, 0x3a0fc367dcf0ff0a5a1db0b1b7c3093f33nat, 0x741f86cfb9e1fe14b43b61nat, 0x19f498e691219408b8ccfa7950d4c8d8d2int, 0, 0xacbf227c962e831d66a555792b20db86aint);
    lemma_power_step(2, 0x3a0fc367dcf0ff0a5a1db0b1b7c3093f33nat, 0xe83f0d9f73c3fc296876c2nat, 0xacbf227c962e831d66a555792b20db86aint, 1, 0x2e2217b21a8b518f4ced6e31e644fb4850int);
    lemma_power_step(2, 0x3a0fc367dcf0ff0a5a1db0b1b7c3093f33nat, 0x1d07e1b3ee787f852d0ed85nat, 0x2e2217b21a8b518f4ced6e31e644fb4850int, 1, 0x97bd350a4db0c15de4973a88e40c5a9d7int);
    lemma_power_step(2, 0x3a0fc367dcf0ff0a5a1db0b1b7c3093f33nat, 0x3a0fc367dcf0ff0a5a1db0bnat, 0x97bd350a4db0c15de4973a88e40c5a9d7int, 0, 0x1110f7cc4947b197f6700ff130ee2dc9b3int);
    lemma_power_step(2, 0x3a0fc367dcf0ff0a5a1db0b1b7c3093f33nat, 0x741f86cfb9e1fe14b43b616nat, 0x1110f7cc4947b197f6700ff130ee2dc9b3int, 0, 0x4f2256b123b77f6ba5430e5cc479c72d0int);
    lemma_power_step(2, 0x3a0fc367dcf0ff0a5a1db0b1b7c3093f33nat, 0xe83f0d9f73c3fc296876c2cnat, 0x4f2256b123b77f6ba5430e5cc479c72d0int, 0, 0x28d569cef7ed824220b29ba806cf4c0268int);
    lemma_power_step(2, 0x3a0fc367dcf0ff0a5a1db0b1b7c3093f33nat, 0x1d07e1b3ee787f852d0ed858nat, 0x28d569cef7ed824220b29ba806cf4c0268int, 1, 0xc49342d636b29f179a77b412d4af75329int);
    lemma_power_step(2, 0x3a0fc367dcf0ff0a5a1db0b1b7c3093f33nat, 0x3a0fc367dcf0ff0a5a1db0b1nat, 0xc49342d636b29f179a77b412d4af75329int, 1, 0x2a2d84f02475d285befaa1fcf777af1ac5int);
    lemma_power_step(2, 0x3a0fc367dcf0ff0a5a1db0b1b7c3093f33nat, 0x741f86cfb9e1fe14b43b6163nat, 0x2a2d84f02475d285befaa1fcf777af1ac5int, 0, 0x2a3e96decd8f2696174552389c9a33a663int);
}

/// A power of 2 modulo `p = 19757330305831588566944191468367130476339`.
proof fn lemma_power_13()
    ensures
        power_mod(2, 0x3a0fc367dcf0ff0a5a1db0b1b7c3093f32nat, 0x3a0fc367dcf0ff0a5a1db0b1b7c3093f33nat) == 1,
{
    lemma_power_12();
    lemma_power_step(2, 0x3a0fc367dcf0ff0a5a1db0b1b7c3093f33nat, 0xe83f0d9f73c3fc296876c2c6nat, 0x2a3e96decd8f2696174552389c9a33a663int, 1, 0x3983cbf5b664c351fe198ad9599a62eb84int);
    lemma_power_step(2, 0x3a0fc367dcf0ff0a5a1db0b1b7c3093f33nat, 0x1d07e1b3ee787f852d0ed858dnat, 0x3983cbf5b664c351fe198ad9599a62eb84int, 1, 0x302b80c22769cb1c4e6e60109bba83844cint);
    lemma_power_step(2, 0x3a0fc367dcf0ff0a5a1db0b1b7c3093f33nat, 0x3a0fc367dcf0ff0a5a1db0b1bnat, 0x302b80c22769cb1c4e6e60109bba83844cint, 0, 0x21fc538ab60acf7934ef2899f9aa2611e8int);
    lemma_power_step(2, 0x3a0fc367dcf0ff0a5a1db0b1b7c3093f33nat, 0x741f86cfb9e1fe14b43b61636nat, 0x21fc538ab60acf7934ef2899f9aa2611e8int, 1, 0x29d58324367fcc3ed931296218a7c44dfbint);
    lemma_power_step(2, 0x3a0fc367dcf0ff0a5a1db0b1b7c3093f33nat, 0xe83f0d9f73c3fc296876c2c6dnat, 0x29d58324367fcc3ed931296218a7c44dfbint, 1, 0x2ee6622ed77c2a47a93e3d6b73bb6d5779int);
    lemma_power_step(2, 0x3a0fc367dcf0ff0a5a1db0b1b7c3093f33nat, 0x1d07e1b3ee787f852d0ed858dbnat, 0x2ee6622ed77c2a47a93e3d6b73bb6d5779int, 1, 0x33ae5c2b3b5d4918330d116908ebd56464int);
    lemma_power_step(2, 0x3a0fc367dcf0ff0a5a1db0b1b7c3093f33nat, 0x3a0fc367dcf0ff0a5a1db0b1b7nat, 0x33ae5c2b3b5d4918330d116908ebd56464int, 1, 0x230e0ad8fa060472cf83a99d597cc5073bint);
    lemma_power_step(2, 0x3a0fc367dcf0ff0a5a1db0b1b7c3093f33nat, 0x741f86cfb9e1fe14b43b61636fnat, 0x230e0ad8fa060472cf83a99d597cc5073bint, 1, 0x18ada5978172a7ad76b42e90dce8070feint);
    lemma_power_step(2, 0x3a0fc367dcf0ff0a5a1db0b1b7c3093f33nat, 0xe83f0d9f73c3fc296876c2c6dfnat, 0x18ada5978172a7ad76b42e90dce8070feint, 0, 0x2adac1cceae66029350d86528b9e395c37int);
    lemma_power_step(2, 0x3a0fc367dcf0ff0a5a1db0b1b7c3093f33nat, 0x1d07e1b3ee787f852d0ed858dbenat, 0x2adac1cceae66029350d86528b9e395c37int, 0, 0x240a0fdf185e3c78c05be5bb3f264285efint);
    lemma_power_step(2, 0x3a0fc367dcf0ff0a5a1db0b1b7c3093f33nat, 0x3a0fc367dcf0ff0a5a1db0b1b7cnat, 0x240a0fdf185e3c78c05be5bb3f264285efint, 0, 0x1d3af3c0f977164075e12c77e10a3029feint);
    lemma_power_step(2, 0x3a0fc367dcf0ff0a5a1db0b1b7c3093f33nat, 0x741f86cfb9e1fe14b43b61636f8nat, 0x1d3af3c0f977164075e12c77e10a3029feint, 0, 0x2e1725db62e0d277c15c3e4576c4658e08int);
    lemma_power_step(2, 0x3a0fc367dcf0ff0a5a1db0b1b7c3093f33nat, 0xe83f0d9f73c3fc296876c2c6df0nat, 0x2e1725db62e0d277c15c3e4576c4658e08int, 1, 0xc73fcf434347aa5043917fbcbe8711ca6int);
    lemma_power_step(2, 0x3a0fc367dcf0ff0a5a1db0b1b7c3093f33nat, 0x1d07e1b3ee787f852d0ed858dbe1nat, 0xc73fcf434347aa5043917fbcbe8711ca6int, 1, 0x2bade27cc358aaa00a8234165cb25e8d1aint);
    lemma_power_step(2, 0x3a0fc367dcf0ff0a5a1db0b1b7c3093f33nat, 0x3a0fc367dcf0ff0a5a1db0b1b7c3nat, 0x2bade27cc358aaa00a8234165cb25e8d1aint, 0, 0xc8053c5ca323c671c24f7fcf951d4b55int);
    lemma_power_step(2, 0x3a0fc367dcf0ff0a5a1db0b1b7c3093f33nat, 0x741f86cfb9e1fe14b43b61636f86nat, 0xc8053c5ca323c671c24f7fcf951d4b55int, 0, 0x19c77f056573f98cc9113ad33345788dcbint);
    lemma_power_step(2, 0x3a0fc367dcf0ff0a5a1db0b1b7c3093f33nat, 0xe83f0d9f73c3fc296876c2c6df0cnat, 0x19c77f056573f98cc9113ad33345788dcbint, 0, 0x151f346508d4aa1abf47c3645dd15dc965int);
    lemma_power_step(2, 0x3a0fc367dcf0ff0a5a1db0b1b7c3093f33nat, 0x1d07e1b3ee787f852d0ed858dbe18nat, 0x151f346508d4aa1abf47c3645dd15dc965int, 0, 0x23a67b681069e5e83b50972727074e494int);
    lemma_power_step(2, 0x3a0fc367dcf0ff0a5a1db0b1b7c3093f33nat, 0x3a0fc367dcf0ff0a5a1db0b1b7c30nat, 0x23a67b681069e5e83b50972727074e494int, 1, 0x1f4efd12647ba5dcbe1d45b1f951f7e2faint);
    lemma_power_step(2, 0x3a0fc367dcf0ff0a5a1db0b1b7c3093f33nat, 0x741f86cfb9e1fe14b43b61636f861nat, 0x1f4efd12647ba5dcbe1d45b1f951f7e2faint, 0, 0xf9f1c1bf9367f27a6deb9cccdf66bcc8dint);
    lemma_power_step(2, 0x3a0fc367dcf0ff0a5a1db0b1b7c3093f33nat, 0xe83f0d9f73c3fc296876c2c6df0c2nat, 0xf9f1c1bf9367f27a6deb9cccdf66bcc8dint, 0, 0x1f8e7236f2400c5ed8c170ab28330e6fa8int);
    lemma_power_step(2, 0x3a0fc367dcf0ff0a5a1db0b1b7c3093f33nat, 0x1d07e1b3ee787f852d0ed858dbe184nat, 0x1f8e7236f2400c5ed8c170ab28330e6fa8int, 1, 0x20f28c4634480b803640b633b70eaf2250int);
    lemma_power_step(2, 0x3a0fc367dcf0ff0a5a1db0b1b7c3093f33nat, 0x3a0fc367dcf0ff0a5a1db0b1b7c309nat, 0x20f28c4634480b803640b633b70eaf2250int, 0, 0x34bffbcd219efe98b766cf0b7a3404ddf2int);
    lemma_power_step(2, 0x3a0fc367dcf0ff0a5a1db0b1b7c3093f33nat, 0x741f86cfb9e1fe14b43b61636f8612nat, 0x34bffbcd219efe98b766cf0b7a3404ddf2int, 0, 0x2d07887ed538968d75a7aee5d4d35d420int);
    lemma_power_step(2, 0x3a0fc367dcf0ff0a5a1db0b1b7c3093f33nat, 0xe83f0d9f73c3fc296876c2c6df0c24nat, 0x2d07887ed538968d75a7aee5d4d35d420int, 1, 0x928bfd4b0b5ef78246648d7be32521e3cint);
    lemma_power_step(2, 0x3a0fc367dcf0ff0a5a1db0b1b7c3093f33nat, 0x1d07e1b3ee787f852d0ed858dbe1849nat, 0x928bfd4b0b5ef78246648d7be32521e3cint, 1, 0x157a075d3b3087fa471185500eb14dc1c3int);
    lemma_power_step(2, 0x3a0fc367dcf0ff0a5a1db0b1b7c3093f33nat, 0x3a0fc367dcf0ff0a5a1db0b1b7c3093nat, 0x157a075d3b3087fa471185500eb14dc1c3int, 1, 0x231f9052e3e25cab640c9d07aef6e2c2e8int);
    lemma_power_step(2, 0x3a0fc367dcf0ff0a5a1db0b1b7c3093f33nat, 0x741f86cfb9e1fe14b43b61636f86127nat, 0x231f9052e3e25cab640c9d07aef6e2c2e8int, 1, 0x20d0cbe71baccbc1b2890ef68b5b025de3int);
    lemma_power_step(2, 0x3a0fc367dcf0ff0a5a1db0b1b7c3093f33nat, 0xe83f0d9f73c3fc296876c2c6df0c24fnat, 0x20d0cbe71baccbc1b2890ef68b5b025de3int, 1, 0x16738a6a7f2b1d375357ba1e2ef206b3e3int);
    lemma_power_step(2, 0x3a0fc367dcf0ff0a5a1db0b1b7c3093f33nat, 0x1d07e1b3ee787f852d0ed858dbe1849fnat, 0x16738a6a7f2b1d375357ba1e2ef206b3e3int, 1, 0x39c7e10bf418c33540db3e4974305a7deint);
    lemma_power_step(2, 0x3a0fc367dcf0ff0a5a1db0b1b7c3093f33nat, 0x3a0fc367dcf0ff0a5a1db0b1b7c3093fnat, 0x39c7e10bf418c33540db3e4974305a7deint, 0, 0x240e6a1c6c8da9903f6c62fadd29bae04fint);
    lemma_power_step(2, 0x3a0fc367dcf0ff0a5a1db0b1b7c3093f33nat, 0x741f86cfb9e1fe14b43b61636f86127enat, 0x240e6a1c6c8da9903f6c62fadd29bae04fint, 0, 0x1164bcde59c425ed3e5cf84d8296156959int);
    lemma_power_step(2, 0x3a0fc367dcf0ff0a5a1db0b1b7c3093f33nat, 0xe83f0d9f73c3fc296876c2c6df0c24fcnat, 0x1164bcde59c425ed3e5cf84d8296156959int, 1, 0x30042efa8ccb274cfa8140818def00a176int);
    lemma_power_step(2, 0x3a0fc367dcf0ff0a5a1db0b1b7c3093f33nat, 0x1d07e1b3ee787f852d0ed858dbe1849f9nat, 0x30042efa8ccb274cfa8140818def00a176int, 1, 0x3815eb3580012cf93e39ccc583d7f652c0int);
    lemma_power_step(2, 0x3a0fc367dcf0ff0a5a1db0b1b7c3093f33nat, 0x3a0fc367dcf0ff0a5a1db0b1b7c3093f3nat, 0x3815eb3580012cf93e39ccc583d7f652c0int, 0, 0x2b9f807a539785768f17d44aed7679a140int);
    lemma_power_step(2, 0x3a0fc367dcf0ff0a5a1db0b1b7c3093f33nat, 0x741f86cfb9e1fe14b43b61636f86127e6nat, 0x2b9f807a539785768f17d44aed7679a140int, 0, 0x35c046cc0c92f44c09adea57a6d59d65ffint);
    lemma_power_step(2, 0x3a0fc367dcf0ff0a5a1db0b1b7c3093f33nat, 0xe83f0d9f73c3fc296876c2c6df0c24fccnat, 0x35c046cc0c92f44c09adea57a6d59d65ffint, 1, 0x3a0fc367dcf0ff0a5a1db0b1b7c3093f32int);
    lemma_power_step(2, 0x3a0fc367dcf0ff0a5a1db0b1b7c3093f33nat, 0x1d07e1b3ee787f852d0ed858dbe1849f99nat, 0x3a0fc367dcf0ff0a5a1db0b1b7c3093f32int, 0, 1);
}

/// `p = 19757330305831588566944191468367130476339` is prime: `q =
/// 172054593956031949258510691` is a prime above the square root of `p` that
/// divides `p - 1`, 2 to the power `p - 1` is one modulo `p`, and 2 to the
/// power `(p - 1) / q`, less one, has an inverse modulo `p`.
proof fn lemma_prime_19757330305831588566944191468367130476339()
    ensures
        is_prime(0x3a0fc367dcf0ff0a5a1db0b1b7c3093f33nat),
{
    lemma_prime_172054593956031949258510691();
    lemma_power_13();
    lemma_power_zero(2, 0x3a0fc367dcf0ff0a5a1db0b1b7c3093f33nat);
    lemma_power_step(2, 0x3a0fc367dcf0ff0a5a1db0b1b7c3093f33nat, 0, 1, 1, 2);
    lemma_power_step(2, 0x3a0fc367dcf0ff0a5a1db0b1b7c3093f33nat, 1, 2, 1, 8);
    lemma_power_step(2, 0x3a0fc367dcf0ff0a5a1db0b1b7c3093f33nat, 3, 8, 0, 64);
    lemma_power_step(2, 0x3a0fc367dcf0ff0a5a1db0b1b7c3093f33nat, 6, 64, 1, 8192);
    lemma_power_step(2, 0x3a0fc367dcf0ff0a5a1db0b1b7c3093f33nat, 13, 8192, 0, 67108864);
    lemma_power_step(2, 0x3a0fc367dcf0ff0a5a1db0b1b7c3093f33nat, 26, 67108864, 0, 0x10000000000000int);
    lemma_power_step(2, 0x3a0fc367dcf0ff0a5a1db0b1b7c3093f33nat, 52, 0x10000000000000int, 0, 0x100000000000000000000000000int);
    lemma_power_step(2, 0x3a0fc367dcf0ff0a5a1db0b1b7c3093f33nat, 104, 0x100000000000000000000000000int, 0, 0x3718e0424cdff11c5d39192b68fc1d68bdint);
    lemma_power_step(2, 0x3a0fc367dcf0ff0a5a1db0b1b7c3093f33nat, 208, 0x3718e0424cdff11c5d39192b68fc1d68bdint, 1, 0x39f4a2f3d9f444bd1bb07f75e9f7a62b4bint);
    lemma_power_step(2, 0x3a0fc367dcf0ff0a5a1db0b1b7c3093f33nat, 417, 0x39f4a2f3d9f444bd1bb07f75e9f7a62b4bint, 1, 0x364cdc1328bd9f8cdf1ec263120f9c8790int);
    lemma_power_step(2, 0x3a0fc367dcf0ff0a5a1db0b1b7c3093f33nat, 835, 0x364cdc1328bd9f8cdf1ec263120f9c8790int, 1, 0x396017ec5fe7f2898124ae2da509413bd7int);
    lemma_power_step(2, 0x3a0fc367dcf0ff0a5a1db0b1b7c3093f33nat, 1671, 0x396017ec5fe7f2898124ae2da509413bd7int, 0, 0x80e27c11b810e824a46180637abde8111int);
    lemma_power_step(2, 0x3a0fc367dcf0ff0a5a1db0b1b7c3093f33nat, 3342, 0x80e27c11b810e824a46180637abde8111int, 0, 0x3546ccd4f2966a2015416008340b0943ebint);
    lemma_power_step(2, 0x3a0fc367dcf0ff0a5a1db0b1b7c3093f33nat, 6684, 0x3546ccd4f2966a2015416008340b0943ebint, 0, 0x3746c147c6d4c2bcb53e1d3edb07d54ceeint);
    lemma_power_step(2, 0x3a0fc367dcf0ff0a5a1db0b1b7c3093f33nat, 13368, 0x3746c147c6d4c2bcb53e1d3edb07d54ceeint, 0, 0x31e8f1349b0b2b7374bebf020a631644b5int);
    lemma_power_step(2, 0x3a0fc367dcf0ff0a5a1db0b1b7c3093f33nat, 26736, 0x31e8f1349b0b2b7374bebf020a631644b5int, 0, 0x91a892c3cc5954db04f56c3e78fbacd36int);
    lemma_power_step(2, 0x3a0fc367dcf0ff0a5a1db0b1b7c3093f33nat, 53472, 0x91a892c3cc5954db04f56c3e78fbacd36int, 1, 0x7bd0fb9af14fbefc25005d55c46cdcf6int);
    lemma_power_step(2, 0x3a0fc367dcf0ff0a5a1db0b1b7c3093f33nat, 106945, 0x7bd0fb9af14fbefc25005d55c46cdcf6int, 0, 0x156fa298c7b15763001164b1296b61ab71int);
    lemma_power_step(2, 0x3a0fc367dcf0ff0a5a1db0b1b7c3093f33nat, 213890, 0x156fa298c7b15763001164b1296b61ab71int, 1, 0xa4be7f579ea410797eed54a12d6c08a7cint);
    lemma_power_step(2, 0x3a0fc367dcf0ff0a5a1db0b1b7c3093f33nat, 427781, 0xa4be7f579ea410797eed54a12d6c08a7cint, 1, 0x152f6e583de57149b001b2072779cde1abint);
    lemma_power_step(2, 0x3a0fc367dcf0ff0a5a1db0b1b7c3093f33nat, 855563, 0x152f6e583de57149b001b2072779cde1abint, 0, 0xbf3d1957f1c267413d868f2d3611e2127int);
    lemma_power_step(2, 0x3a0fc367dcf0ff0a5a1db0b1b7c3093f33nat, 1711126, 0xbf3d1957f1c267413d868f2d3611e2127int, 0, 0x1da88ad406cc5c9f7a5d7b7f968c405583int);
    lemma_power_step(2, 0x3a0fc367dcf0ff0a5a1db0b1b7c3093f33nat, 3422252, 0x1da88ad406cc5c9f7a5d7b7f968c405583int, 1, 0xba204b26404bf84f36fdbb16ebc525604int);
    lemma_power_step(2, 0x3a0fc367dcf0ff0a5a1db0b1b7c3093f33nat, 6844505, 0xba204b26404bf84f36fdbb16ebc525604int, 1, 0x242b38eb1323c8376b675d2d955abdfa47int);
    lemma_power_step(2, 0x3a0fc367dcf0ff0a5a1db0b1b7c3093f33nat, 13689011, 0x242b38eb1323c8376b675d2d955abdfa47int, 0, 0x1bf9e530dd18bbcec4cb9522c3625ffd42int);
    lemma_power_step(2, 0x3a0fc367dcf0ff0a5a1db0b1b7c3093f33nat, 27378022, 0x1bf9e530dd18bbcec4cb9522c3625ffd42int, 1, 0x31b2516d2506aa9c9d7087a97ddd72e490int);
    lemma_power_step(2, 0x3a0fc367dcf0ff0a5a1db0b1b7c3093f33nat, 54756045, 0x31b2516d2506aa9c9d7087a97ddd72e490int, 1, 0x24c3c2221f30ae8bf9888c9766f623af38int);
    lemma_power_step(2, 0x3a0fc367dcf0ff0a5a1db0b1b7c3093f33nat, 109512091, 0x24c3c2221f30ae8bf9888c9766f623af38int, 1, 0x154d8970ad3c45cb2e20e051d86893b3a0int);
    lemma_power_step(2, 0x3a0fc367dcf0ff0a5a1db0b1b7c3093f33nat, 219024183, 0x154d8970ad3c45cb2e20e051d86893b3a0int, 0, 0x2b305b690bb22fe2437e54139cfc2ab012int);
    lemma_power_step(2, 0x3a0fc367dcf0ff0a5a1db0b1b7c3093f33nat, 438048366, 0x2b305b690bb22fe2437e54139cfc2ab012int, 1, 0x2f0eb2525df85c82ad9ca11c50159a497int);
    lemma_power_step(2, 0x3a0fc367dcf0ff0a5a1db0b1b7c3093f33nat, 876096733, 0x2f0eb2525df85c82ad9ca11c50159a497int, 1, 0x10566007adfee76ffbba0513094894bbd7int);
    lemma_power_step(2, 0x3a0fc367dcf0ff0a5a1db0b1b7c3093f33nat, 0x687059bbnat, 0x10566007adfee76ffbba0513094894bbd7int, 0, 0x3272326df9a7050fe73c88ef624e7e7925int);
    lemma_power_step(2, 0x3a0fc367dcf0ff0a5a1db0b1b7c3093f33nat, 0xd0e0b376nat, 0x3272326df9a7050fe73c88ef624e7e7925int, 1, 0x127e6b56de661fb2e1b1b810824b2203ffint);
    lemma_power_step(2, 0x3a0fc367dcf0ff0a5a1db0b1b7c3093f33nat, 0x1a1c166ednat, 0x127e6b56de661fb2e1b1b810824b2203ffint, 1, 0xefb581d7c78a6ef6b15a502f9652f2c12int);
    lemma_power_step(2, 0x3a0fc367dcf0ff0a5a1db0b1b7c3093f33nat, 0x34382cddbnat, 0xefb581d7c78a6ef6b15a502f9652f2c12int, 1, 0xf6e910dae538a419d6b1ed66538cc9c26int);
    lemma_power_step(2, 0x3a0fc367dcf0ff0a5a1db0b1b7c3093f33nat, 0x687059bb7nat, 0xf6e910dae538a419d6b1ed66538cc9c26int, 0, 0x2193ecd76461a314632b252fac2571df0aint);
    lemma_power_step(2, 0x3a0fc367dcf0ff0a5a1db0b1b7c3093f33nat, 0xd0e0b376enat, 0x2193ecd76461a314632b252fac2571df0aint, 0, 0x222db58da9c2188663d9fec5e43f57cb34int);
    lemma_power_step(2, 0x3a0fc367dcf0ff0a5a1db0b1b7c3093f33nat, 0x1a1c166edcnat, 0x222db58da9c2188663d9fec5e43f57cb34int, 1, 0x29ec4697b0f87d8e5a17265f4ccabb4e8eint);
    lemma_power_step(2, 0x3a0fc367dcf0ff0a5a1db0b1b7c3093f33nat, 0x34382cddb9nat, 0x29ec4697b0f87d8e5a17265f4ccabb4e8eint, 1, 0x3670ac32de02b2b66529ce18ff8ea0ca73int);
    lemma_power_step(2, 0x3a0fc367dcf0ff0a5a1db0b1b7c3093f33nat, 0x687059bb73nat, 0x3670ac32de02b2b66529ce18ff8ea0ca73int, 1, 0x39ab85367547dc37d288a9fa8ae2f89b14int);
    lemma_power_step(2, 0x3a0fc367dcf0ff0a5a1db0b1b7c3093f33nat, 0xd0e0b376e7nat, 0x39ab85367547dc37d288a9fa8ae2f89b14int, 0, 0x194a50590af4db732cf9df1acf89ca17c8int);
    lemma_power_step(2, 0x3a0fc367dcf0ff0a5a1db0b1b7c3093f33nat, 0x1a1c166edcenat, 0x194a50590af4db732cf9df1acf89ca17c8int, 1, 0x235044a2aaefd0cf15c967aa8a624c6399int);
    lemma_power_step(2, 0x3a0fc367dcf0ff0a5a1db0b1b7c3093f33nat, 0x34382cddb9dnat, 0x235044a2aaefd0cf15c967aa8a624c6399int, 0, 0x106ef48637eb6783ff424e1f2aad82cbafint);
    lemma_power_step(2, 0x3a0fc367dcf0ff0a5a1db0b1b7c3093f33nat, 0x687059bb73anat, 0x106ef48637eb6783ff424e1f2aad82cbafint, 0, 0x2ba89369dc0251d1658a5e9af7da5a826int);
    lemma_power_step(2, 0x3a0fc367dcf0ff0a5a1db0b1b7c3093f33nat, 0xd0e0b376e74nat, 0x2ba89369dc0251d1658a5e9af7da5a826int, 1, 0xfcfa47a120b7fa49be0d8b3e164f80474int);
    lemma_power_step(2, 0x3a0fc367dcf0ff0a5a1db0b1b7c3093f33nat, 0x1a1c166edce9nat, 0xfcfa47a120b7fa49be0d8b3e164f80474int, 1, 0x2d0f4c7cb628677ee2f84a52fc2022d933int);
    lemma_power_step(2, 0x3a0fc367dcf0ff0a5a1db0b1b7c3093f33nat, 0x34382cddb9d3nat, 0x2d0f4c7cb628677ee2f84a52fc2022d933int, 0, 0x1ae2c2ca6b6676caa5c3933f166ac4090cint);
    lemma_criterion_large_factor(0x3a0fc367dcf0ff0a5a1db0b1b7c3093f33nat, 2, 0x8e51fa3a480f89f9de5163nat, 0x1ae2c2ca6b6676caa5c3933f166ac4090cnat, 0x301ca9f38446aff6c3063f39e6ef47be52nat);
}

/// A power of 2 modulo `p = 276602624281642239937218680557139826668747`.
proof fn lemma_power_14()
    ensures
        power_mod(2, 0xcb372beb854bnat, 0x32cdcafae152df290ed9fa9b80caa8174cbnat) == 0x25ea8e582100de61fe84cba2f8b819d424aint,
{
    lemma_power_zero(2, 0x32cdcafae152df290ed9fa9b80caa8174cbnat);
    lemma_power_step(2, 0x32cdcafae152df290ed9fa9b80caa8174cbnat, 0, 1, 1, 2);
    lemma_power_step(2, 0x32cdcafae152df290ed9fa9b80caa8174cbnat, 1, 2, 1, 8);
    lemma_power_step(2, 0x32cdcafae152df290ed9fa9b80caa8174cbnat, 3, 8, 0, 64);
    lemma_power_step(2, 0x32cdcafae152df290ed9fa9b80caa8174cbnat, 6, 64, 0, 4096);
    lemma_power_step(2, 0x32cdcafae152df290ed9fa9b80caa8174cbnat, 12, 4096, 1, 33554432);
    lemma_power_step(2, 0x32cdcafae152df290ed9fa9b80caa8174cbnat, 25, 33554432, 0, 0x4000000000000int);
    lemma_power_step(2, 0x32cdcafae152df290ed9fa9b80caa8174cbnat, 50, 0x4000000000000int, 1, 0x20000000000000000000000000int);
    lemma_power_step(2, 0x32cdcafae152df290ed9fa9b80caa8174cbnat, 101, 0x20000000000000000000000000int, 1, 0xcec07108d69a04256e9da344004cfb2eb7int);
    lemma_power_step(2, 0x32cdcafae152df290ed9fa9b80caa8174cbnat, 203, 0xcec07108d69a04256e9da344004cfb2eb7int, 0, 0x271878a756acb6b6f13286ef6c6775712d8int);
    lemma_power_step(2, 0x32cdcafae152df290ed9fa9b80caa8174cbnat, 406, 0x271878a756acb6b6f13286ef6c6775712d8int, 0, 0x1cc27d3c1528c687e70c140e837daf80e86int);
    lemma_power_step(2, 0x32cdcafae152df290ed9fa9b80caa8174cbnat, 812, 0x1cc27d3c1528c687e70c140e837daf80e86int, 1, 0xdf954ebe29c89ff803fdbb24d5eb270e74int);
    lemma_power_step(2, 0x32cdcafae152df290ed9fa9b80caa8174cbnat, 1625, 0xdf954ebe29c89ff803fdbb24d5eb270e74int, 1, 0x1ff6bb0223347fb1546711201c6ffbccd4eint);
    lemma_power_step(2, 0x32cdcafae152df290ed9fa9b80caa8174cbnat, 3251, 0x1ff6bb0223347fb1546711201c6ffbccd4eint, 0, 0x1463b9d36511a51e60b4282e8947a748f53int);
    lemma_power_step(2, 0x32cdcafae152df290ed9fa9b80caa8174cbnat, 6502, 0x1463b9d36511a51e60b4282e8947a748f53int, 1, 0x1430d32b8dcaae76da4c931dc6647665a6aint);
    lemma_power_step(2, 0x32cdcafae152df290ed9fa9b80caa8174cbnat, 13005, 0x1430d32b8dcaae76da4c931dc6647665a6aint, 1, 0x2a136d6048f84f06ba49c1b5a57066dbf9int);
    lemma_power_step(2, 0x32cdcafae152df290ed9fa9b80caa8174cbnat, 26011, 0x2a136d6048f84f06ba49c1b5a57066dbf9int, 1, 0x84ceee1e3a5d49984d02bc702d90968c53int);
    lemma_power_step(2, 0x32cdcafae152df290ed9fa9b80caa8174cbnat, 52023, 0x84ceee1e3a5d49984d02bc702d90968c53int, 0, 0x10aa2782e25557c02a24215e762b052dd8dint);
    lemma_power_step(2, 0x32cdcafae152df290ed9fa9b80caa8174cbnat, 104046, 0x10aa2782e25557c02a24215e762b052dd8dint, 0, 0x20ef80a0b654a2af85b33b5746905b17321int);
    lemma_power_step(2, 0x32cdcafae152df290ed9fa9b80caa8174cbnat, 208092, 0x20ef80a0b654a2af85b33b5746905b17321int, 1, 0x18a7f9adc5ddc4f77b75dca6bd350b41c11int);
    lemma_power_step(2, 0x32cdcafae152df290ed9fa9b80caa8174cbnat, 416185, 0x18a7f9adc5ddc4f77b75dca6bd350b41c11int, 0, 0x22182d7a923348203cb188eec81c9632ffcint);
    lemma_power_step(2, 0x32cdcafae152df290ed9fa9b80caa8174cbnat, 832370, 0x22182d7a923348203cb188eec81c9632ffcint, 1, 0x8897d663278df2dcd0c0d9a405de0fb386int);
    lemma_power_step(2, 0x32cdcafae152df290ed9fa9b80caa8174cbnat, 1664741, 0x8897d663278df2dcd0c0d9a405de0fb386int, 0, 0x234123a6424402fd364d2a7b7b58ccbfea6int);
    lemma_power_step(2, 0x32cdcafae152df290ed9fa9b80caa8174cbnat, 3329482, 0x234123a6424402fd364d2a7b7b58ccbfea6int, 1, 0x2866ccfe2a8f80771ad0e315e44b1199cdcint);
    lemma_power_step(2, 0x32cdcafae152df290ed9fa9b80caa8174cbnat, 6658965, 0x2866ccfe2a8f80771ad0e315e44b1199cdcint, 1, 0x2e0dfa55e31139f68e95a2d095118076301int);
    lemma_power_step(2, 0x32cdcafae152df290ed9fa9b80caa8174cbnat, 13317931, 0x2e0dfa55e31139f68e95a2d095118076301int, 1, 0x28b5d6f577bbefcb0046feb77c84f32e8d8int);
    lemma_power_step(2, 0x32cdcafae152df290ed9fa9b80caa8174cbnat, 26635863, 0x28b5d6f577bbefcb0046feb77c84f32e8d8int, 1, 0x1a45edf11265c70705d61a54dff33a80810int);
    lemma_power_step(2, 0x32cdcafae152df290ed9fa9b80caa8174cbnat, 53271727, 0x1a45edf11265c70705d61a54dff33a80810int, 1, 0x14f89ceaacd746bf911655577e3eb242ee6int);
    lemma_power_step(2, 0x32cdcafae152df290ed9fa9b80caa8174cbnat, 106543455, 0x14f89ceaacd746bf911655577e3eb242ee6int, 0, 0x27f88e23b756af5309cc379e053e2d158eeint);
    lemma_power_step(2, 0x32cdcafae152df290ed9fa9b80caa8174cbnat, 213086910, 0x27f88e23b756af5309cc379e053e2d158eeint, 1, 0x256b09d62d55bb96b4a54d4e57b7c91e5bcint);
    lemma_power_step(2, 0x32cdcafae152df290ed9fa9b80caa8174cbnat, 426173821, 0x256b09d62d55bb96b4a54d4e57b7c91e5bcint, 0, 0x12b9f9853d5cd91df86f290e2737c5b14d1int);
    lemma_power_step(2, 0x32cdcafae152df290ed9fa9b80caa8174cbnat, 852347642, 0x12b9f9853d5cd91df86f290e2737c5b14d1int, 1, 0x30a3a03a095adde822d486469b51f28fe98int);
    lemma_power_step(2, 0x32cdcafae152df290ed9fa9b80caa8174cbnat, 0x659b95f5nat, 0x30a3a03a095adde822d486469b51f28fe98int, 1, 0x2aa5069dda5698b570d85306ca151476f5bint);
    lemma_power_step(2, 0x32cdcafae152df290ed9fa9b80caa8174cbnat, 0xcb372bebnat, 0x2aa5069dda5698b570d85306ca151476f5bint, 1, 0x2f18c589e958d91d4734bca308bc44632c9int);
    lemma_power_step(2, 0x32cdcafae152df290ed9fa9b80caa8174cbnat, 0x1966e57d7nat, 0x2f18c589e958d91d4734bca308bc44632c9int, 0, 0x1f13e5d37d9c693f72358cdd069f45a4833int);
    lemma_power_step(2, 0x32cdcafae152df290ed9fa9b80caa8174cbnat, 0x32cdcafaenat, 0x1f13e5d37d9c693f72358cdd069f45a4833int, 0, 0x2fdbc449ebdc045f4fd6245bbec404696cfint);
    lemma_power_step(2, 0x32cdcafae152df290ed9fa9b80caa8174cbnat, 0x659b95f5cnat, 0x2fdbc449ebdc045f4fd6245bbec404696cfint, 0, 0x28dfb2fd2b26bd7311c31b5162efa3ffe28int);
    lemma_power_step(2, 0x32cdcafae152df290ed9fa9b80caa8174cbnat, 0xcb372beb8nat, 0x28dfb2fd2b26bd7311c31b5162efa3ffe28int, 0, 0xea6459bc0e4ffb2fd6411e2eb6965db2fdint);
    lemma_power_step(2, 0x32cdcafae152df290ed9fa9b80caa8174cbnat, 0x1966e57d70nat, 0xea6459bc0e4ffb2fd6411e2eb6965db2fdint, 1, 0x254b88384d672fb8df7a43ae5ab5b8967ebint);
    lemma_power_step(2, 0x32cdcafae152df290ed9fa9b80caa8174cbnat, 0x32cdcafae1nat, 0x254b88384d672fb8df7a43ae5ab5b8967ebint, 0, 0x9a2161d7d9c4abfe2305894b585570d925int);
    lemma_power_step(2, 0x32cdcafae152df290ed9fa9b80caa8174cbnat, 0x659b95f5c2nat, 0x9a2161d7d9c4abfe2305894b585570d925int, 1, 0x16946b5cfad275d373b1667ff6548d04e34int);
    lemma_power_step(2, 0x32cdcafae152df290ed9fa9b80caa8174cbnat, 0xcb372beb85nat, 0x16946b5cfad275d373b1667ff6548d04e34int, 0, 0x17f5cc5cf40705225ff89b6d21f239a64d1int);
    lemma_power_step(2, 0x32cdcafae152df290ed9fa9b80caa8174cbnat, 0x1966e57d70anat, 0x17f5cc5cf40705225ff89b6d21f239a64d1int, 1, 0xe5dffd80ce56e18e65a7f34cffbd1ba978int);
    lemma_power_step(2, 0x32cdcafae152df290ed9fa9b80caa8174cbnat, 0x32cdcafae15nat, 0xe5dffd80ce56e18e65a7f34cffbd1ba978int, 0, 0x1882b5f2dbfa707460c40f4ee34c8fd48d3int);
    lemma_power_step(2, 0x32cdcafae152df290ed9fa9b80caa8174cbnat, 0x659b95f5c2anat, 0x1882b5f2dbfa707460c40f4ee34c8fd48d3int, 0, 0x19b8e88fd8e77aecff8cea7b419e0674694int);
    lemma_power_step(2, 0x32cdcafae152df290ed9fa9b80caa8174cbnat, 0xcb372beb854nat, 0x19b8e88fd8e77aecff8cea7b419e0674694int, 1, 0x1f5ba56e2e2cba879ff60e9c358f6089cbaint);
    lemma_power_step(2, 0x32cdcafae152df290ed9fa9b80caa8174cbnat, 0x1966e57d70a9nat, 0x1f5ba56e2e2cba879ff60e9c358f6089cbaint, 0, 0xd23359a6e298ec9b80b703d21571025675int);
    lemma_power_step(2, 0x32cdcafae152df290ed9fa9b80caa8174cbnat, 0x32cdcafae152nat, 0xd23359a6e298ec9b80b703d21571025675int, 1, 0xe4a4f1005a149c8c38f0466266da98ac25int);
    lemma_power_step(2, 0x32cdcafae152df290ed9fa9b80caa8174cbnat, 0x659b95f5c2a5nat, 0xe4a4f1005a149c8c38f0466266da98ac25int, 1, 0x25ea8e582100de61fe84cba2f8b819d424aint);
}

/// A power of 2 modulo `p = 276602624281642239937218680557139826668747`.
proof fn lemma_power_15()
    ensures
        power_mod(2, 0xcb372beb854b7ca43b67ea6enat, 0x32cdcafae152df290ed9fa9b80caa8174cbnat) == 0x11f54bbe8cc8621b53bed54a9a70a3bb5baint,
{
    lemma_power_14();
    lemma_power_step(2, 0x32cdcafae152df290ed9fa9b80caa8174cbnat, 0xcb372beb854bnat, 0x25ea8e582100de61fe84cba2f8b819d424aint, 0, 0x18f0335d7600aa541500b262bfabd739a5eint);
    lemma_power_step(2, 0x32cdcafae152df290ed9fa9b80caa8174cbnat, 0x1966e57d70a96nat, 0x18f0335d7600aa541500b262bfabd739a5eint, 1, 0xdd41d92a99a44ad250c508ec214f8bbf7cint);
    lemma_power_step(2, 0x32cdcafae152df290ed9fa9b80caa8174cbnat, 0x32cdcafae152dnat, 0xdd41d92a99a44ad250c508ec214f8bbf7cint, 1, 0xf2229c4f5fcce31c2bf9e81eebc387a8c5int);
    lemma_power_step(2, 0x32cdcafae152df290ed9fa9b80caa8174cbnat, 0x659b95f5c2a5bnat, 0xf2229c4f5fcce31c2bf9e81eebc387a8c5int, 1, 0x18bc614ed8f542775f9c1a416d696eba066int);
    lemma_power_step(2, 0x32cdcafae152df290ed9fa9b80caa8174cbnat, 0xcb372beb854b7nat, 0x18bc614ed8f542775f9c1a416d696eba066int, 1, 0x26b88ee55bd28c45f96122b6339d30c04f5int);
    lemma_power_step(2, 0x32cdcafae152df290ed9fa9b80caa8174cbnat, 0x1966e57d70a96fnat, 0x26b88ee55bd28c45f96122b6339d30c04f5int, 1, 0x8ed31667058b30ef59ade18af336ee86feint);
    lemma_power_step(2, 0x32cdcafae152df290ed9fa9b80caa8174cbnat, 0x32cdcafae152dfnat, 0x8ed31667058b30ef59ade18af336ee86feint, 0, 0x2c8253213c4070f6808e75331160d6811f6int);
    lemma_power_step(2, 0x32cdcafae152df290ed9fa9b80caa8174cbnat, 0x659b95f5c2a5benat, 0x2c8253213c4070f6808e75331160d6811f6int, 0, 0x26f77f632a168676dc54b1323ac81cce51aint);
    lemma_power_step(2, 0x32cdcafae152df290ed9fa9b80caa8174cbnat, 0xcb372beb854b7cnat, 0x26f77f632a168676dc54b1323ac81cce51aint, 1, 0x5a3787bf69630d16fd2a2f11badfa06562int);
    lemma_power_step(2, 0x32cdcafae152df290ed9fa9b80caa8174cbnat, 0x1966e57d70a96f9nat, 0x5a3787bf69630d16fd2a2f11badfa06562int, 0, 0x1b737776c299c4b706050a9964d3a9149faint);
    lemma_power_step(2, 0x32cdcafae152df290ed9fa9b80caa8174cbnat, 0x32cdcafae152df2nat, 0x1b737776c299c4b706050a9964d3a9149faint, 1, 0x2a9b414123267fd967e6f76232d4631687fint);
    lemma_power_step(2, 0x32cdcafae152df290ed9fa9b80caa8174cbnat, 0x659b95f5c2a5be5nat, 0x2a9b414123267fd967e6f76232d4631687fint, 0, 0x830acde435a7c5a72d15cbd7ec88455f72int);
    lemma_power_step(2, 0x32cdcafae152df290ed9fa9b80caa8174cbnat, 0xcb372beb854b7canat, 0x830acde435a7c5a72d15cbd7ec88455f72int, 0, 0x1e2ac79d4c446d2fb0dcded37e09c237dcbint);
    lemma_power_step(2, 0x32cdcafae152df290ed9fa9b80caa8174cbnat, 0x1966e57d70a96f94nat, 0x1e2ac79d4c446d2fb0dcded37e09c237dcbint, 1, 0x2e6dadace0bd36a655e15be95c4999c24b0int);
    lemma_power_step(2, 0x32cdcafae152df290ed9fa9b80caa8174cbnat, 0x32cdcafae152df29nat, 0x2e6dadace0bd36a655e15be95c4999c24b0int, 0, 0x76e52f486c7fb07c3997b7bfd2a3b96995int);
    lemma_power_step(2, 0x32cdcafae152df290ed9fa9b80caa8174cbnat, 0x659b95f5c2a5be52nat, 0x76e52f486c7fb07c3997b7bfd2a3b96995int, 0, 0x2a6d56ea81ab133710311d863cf821a4629int);
    lemma_power_step(2, 0x32cdcafae152df290ed9fa9b80caa8174cbnat, 0xcb372beb854b7ca4nat, 0x2a6d56ea81ab133710311d863cf821a4629int, 0, 0x9bd0cac940e62384e06ab546804ff47bedint);
    lemma_power_step(2, 0x32cdcafae152df290ed9fa9b80caa8174cbnat, 0x1966e57d70a96f948nat, 0x9bd0cac940e62384e06ab546804ff47bedint, 0, 0x1d243a609b3b6d14f949a199b6a9bdc9229int);
    lemma_power_step(2, 0x32cdcafae152df290ed9fa9b80caa8174cbnat, 0x32cdcafae152df290nat, 0x1d243a609b3b6d14f949a199b6a9bdc9229int, 1, 0x118928af1ff8eccd4edc0aa50f3f908e49int);
    lemma_power_step(2, 0x32cdcafae152df290ed9fa9b80caa8174cbnat, 0x659b95f5c2a5be521nat, 0x118928af1ff8eccd4edc0aa50f3f908e49int, 1, 0x2be7dafb2faaf00025313a5150ca0951297int);
    lemma_power_step(2, 0x32cdcafae152df290ed9fa9b80caa8174cbnat, 0xcb372beb854b7ca43nat, 0x2be7dafb2faaf00025313a5150ca0951297int, 1, 0x998e76014e3a8e5a3c842d941a11b33b8bint);
    lemma_power_step(2, 0x32cdcafae152df290ed9fa9b80caa8174cbnat, 0x1966e57d70a96f9487nat, 0x998e76014e3a8e5a3c842d941a11b33b8bint, 0, 0x32c00797ca13e1af8352c737ec5ce8d03a0int);
    lemma_power_step(2, 0x32cdcafae152df290ed9fa9b80caa8174cbnat, 0x32cdcafae152df290enat, 0x32c00797ca13e1af8352c737ec5ce8d03a0int, 1, 0x1ad0bd7d92cf8acbcb7866e38ff986d4549int);
    lemma_power_step(2, 0x32cdcafae152df290ed9fa9b80caa8174cbnat, 0x659b95f5c2a5be521dnat, 0x1ad0bd7d92cf8acbcb7866e38ff986d4549int, 1, 0x1cde3f3ec7715bc35632799cba29696fd38int);
    lemma_power_step(2, 0x32cdcafae152df290ed9fa9b80caa8174cbnat, 0xcb372beb854b7ca43bnat, 0x1cde3f3ec7715bc35632799cba29696fd38int, 0, 0x7c8be4fab6873595ce0b12f0851bdcbcabint);
    lemma_power_step(2, 0x32cdcafae152df290ed9fa9b80caa8174cbnat, 0x1966e57d70a96f94876nat, 0x7c8be4fab6873595ce0b12f0851bdcbcabint, 1, 0x2de9b0699ae3b2cc35b3e39651bfa3233d3int);
    lemma_power_step(2, 0x32cdcafae152df290ed9fa9b80caa8174cbnat, 0x32cdcafae152df290ednat, 0x2de9b0699ae3b2cc35b3e39651bfa3233d3int, 1, 0x123cb123ad82c4b5e75369102853c7f6529int);
    lemma_power_step(2, 0x32cdcafae152df290ed9fa9b80caa8174cbnat, 0x659b95f5c2a5be521dbnat, 0x123cb123ad82c4b5e75369102853c7f6529int, 0, 0x1b6bad7748ea5cf47a8a845731ea2a4f391int);
    lemma_power_step(2, 0x32cdcafae152df290ed9fa9b80caa8174cbnat, 0xcb372beb854b7ca43b6nat, 0x1b6bad7748ea5cf47a8a845731ea2a4f391int, 0, 0x266cbdfae2d91123ef0fd2942b3f17f8e87int);
    lemma_power_step(2, 0x32cdcafae152df290ed9fa9b80caa8174cbnat, 0x1966e57d70a96f94876cnat, 0x266cbdfae2d91123ef0fd2942b3f17f8e87int, 1, 0x1b73faf65ea3b8a45fad19efebfb03ee34eint);
    lemma_power_step(2, 0x32cdcafae152df290ed9fa9b80caa8174cbnat, 0x32cdcafae152df290ed9nat, 0x1b73faf65ea3b8a45fad19efebfb03ee34eint, 1, 0x1184223d0f4be678cb3b00848badb1074c3int);
    lemma_power_step(2, 0x32cdcafae152df290ed9fa9b80caa8174cbnat, 0x659b95f5c2a5be521db3nat, 0x1184223d0f4be678cb3b00848badb1074c3int, 1, 0x158b6bc4a62cd83ad8fe44d085d8524786int);
    lemma_power_step(2, 0x32cdcafae152df290ed9fa9b80caa8174cbnat, 0xcb372beb854b7ca43b67nat, 0x158b6bc4a62cd83ad8fe44d085d8524786int, 1, 0x1b392215ad7c7f42069df478f1f84d3c1e8int);
    lemma_power_step(2, 0x32cdcafae152df290ed9fa9b80caa8174cbnat, 0x1966e57d70a96f94876cfnat, 0x1b392215ad7c7f42069df478f1f84d3c1e8int, 1, 0x2bb3f191f842657570631cd5e82cae51ca8int);
    lemma_power_step(2, 0x32cdcafae152df290ed9fa9b80caa8174cbnat, 0x32cdcafae152df290ed9fnat, 0x2bb3f191f842657570631cd5e82cae51ca8int, 1, 0x116444472241c37596f54df6893f762b4feint);
    lemma_power_step(2, 0x32cdcafae152df290ed9fa9b80caa8174cbnat, 0x659b95f5c2a5be521db3fnat, 0x116444472241c37596f54df6893f762b4feint, 0, 0x873e2ce1128187949769bbacff678fa32aint);
    lemma_power_step(2, 0x32cdcafae152df290ed9fa9b80caa8174cbnat, 0xcb372beb854b7ca43b67enat, 0x873e2ce1128187949769bbacff678fa32aint, 1, 0x232a5b9210146eb721fad3488524c5bb306int);
    lemma_power_step(2, 0x32cdcafae152df290ed9fa9b80caa8174cbnat, 0x1966e57d70a96f94876cfdnat, 0x232a5b9210146eb721fad3488524c5bb306int, 0, 0x19d1cfce39e54e9cd818319ca8682224e8aint);
    lemma_power_step(2, 0x32cdcafae152df290ed9fa9b80caa8174cbnat, 0x32cdcafae152df290ed9fanat, 0x19d1cfce39e54e9cd818319ca8682224e8aint, 1, 0x20fc629de22bba7b6e765e07fb197d46be0int);
    lemma_power_step(2, 0x32cdcafae152df290ed9fa9b80caa8174cbnat, 0x659b95f5c2a5be521db3f5nat, 0x20fc629de22bba7b6e765e07fb197d46be0int, 0, 0x1974dcad00a048024d78a6ad64f0a9d6706int);
    lemma_power_step(2, 0x32cdcafae152df290ed9fa9b80caa8174cbnat, 0xcb372beb854b7ca43b67eanat, 0x1974dcad00a048024d78a6ad64f0a9d6706int, 0, 0x1f3560b1db24c3a40b34a928967812a79abint);
    lemma_power_step(2, 0x32cdcafae152df290ed9fa9b80caa8174cbnat, 0x1966e57d70a96f94876cfd4nat, 0x1f3560b1db24c3a40b34a928967812a79abint, 1, 0x2f6f971e46a32ec307f0a6ffc977556285aint);
    lemma_power_step(2, 0x32cdcafae152df290ed9fa9b80caa8174cbnat, 0x32cdcafae152df290ed9fa9nat, 0x2f6f971e46a32ec307f0a6ffc977556285aint, 1, 0x3bca15c70bd863a983c83a76e505d7f565int);
    lemma_power_step(2, 0x32cdcafae152df290ed9fa9b80caa8174cbnat, 0x659b95f5c2a5be521db3f53nat, 0x3bca15c70bd863a983c83a76e505d7f565int, 0, 0x179ec3669a58d5a95d3150cfdd0aa0af384int);
    lemma_power_step(2, 0x32cdcafae152df290ed9fa9b80caa8174cbnat, 0xcb372beb854b7ca43b67ea6nat, 0x179ec3669a58d5a95d3150cfdd0aa0af384int, 1, 0x2151ec6c0c82430e3dd64f7d209b9115233int);
    lemma_power_step(2, 0x32cdcafae152df290ed9fa9b80caa8174cbnat, 0x1966e57d70a96f94876cfd4dnat, 0x2151ec6c0c82430e3dd64f7d209b9115233int, 1, 0x321c1cb96362f3f329746289ba5f66ec26eint);
    lemma_power_step(2, 0x32cdcafae152df290ed9fa9b80caa8174cbnat, 0x32cdcafae152df290ed9fa9bnat, 0x321c1cb96362f3f329746289ba5f66ec26eint, 1, 0x57d96a3c8ca1292a4a02b4ae47dff768faint);
    lemma_power_step(2, 0x32cdcafae152df290ed9fa9b80caa8174cbnat, 0x659b95f5c2a5be521db3f537nat, 0x57d96a3c8ca1292a4a02b4ae47dff768faint, 0, 0x11f54bbe8cc8621b53bed54a9a70a3bb5baint);
}

/// A power of 2 modulo `p = 276602624281642239937218680557139826668747`.
proof fn lemma_power_16()
    ensures
        power_mod(2, 0x32cdcafae152df290ed9fa9b80caa8174canat, 0x32cdcafae152df290ed9fa9b80caa8174cbnat) == 1,
{
    lemma_power_15();
    lemma_power_step(2, 0x32cdcafae152df290ed9fa9b80caa8174cbnat, 0xcb372beb854b7ca43b67ea6enat, 0x11f54bbe8cc8621b53bed54a9a70a3bb5baint, 0, 0x880dfede5c9f18382014458bd113b205aeint);
    lemma_power_step(2, 0x32cdcafae152df290ed9fa9b80caa8174cbnat, 0x1966e57d70a96f94876cfd4dcnat, 0x880dfede5c9f18382014458bd113b205aeint, 0, 0x2614db8e2f5d488c70fab0895889fe65430int);
    lemma_power_step(2, 0x32cdcafae152df290ed9fa9b80caa8174cbnat, 0x32cdcafae152df290ed9fa9b8nat, 0x2614db8e2f5d488c70fab0895889fe65430int, 0, 0x20ffdc76015b61742f6235724431024c4e2int);
    lemma_power_step(2, 0x32cdcafae152df290ed9fa9b80caa8174cbnat, 0x659b95f5c2a5be521db3f5370nat, 0x20ffdc76015b61742f6235724431024c4e2int, 0, 0x9892870b2c42390d3d08f0ca8abd027b91int);
    lemma_power_step(2, 0x32cdcafae152df290ed9fa9b80caa8174cbnat, 0xcb372beb854b7ca43b67ea6e0nat, 0x9892870b2c42390d3d08f0ca8abd027b91int, 0, 0x2a253bf4431eab3ac8346e63eafb08662f4int);
    lemma_power_step(2, 0x32cdcafae152df290ed9fa9b80caa8174cbnat, 0x1966e57d70a96f94876cfd4dc0nat, 0x2a253bf4431eab3ac8346e63eafb08662f4int, 0, 0x22a4e00330eb1ac97f564bc89ce7e38840int);
    lemma_power_step(2, 0x32cdcafae152df290ed9fa9b80caa8174cbnat, 0x32cdcafae152df290ed9fa9b80nat, 0x22a4e00330eb1ac97f564bc89ce7e38840int, 1, 0x2dc53697e31d657d915ee304c3be6ca206cint);
    lemma_power_step(2, 0x32cdcafae152df290ed9fa9b80caa8174cbnat, 0x659b95f5c2a5be521db3f53701nat, 0x2dc53697e31d657d915ee304c3be6ca206cint, 1, 0x1ecb5adad88f9eee08f6ad878b60a35764int);
    lemma_power_step(2, 0x32cdcafae152df290ed9fa9b80caa8174cbnat, 0xcb372beb854b7ca43b67ea6e03nat, 0x1ecb5adad88f9eee08f6ad878b60a35764int, 0, 0x226f4745185a0bc61d038258ba122c59b05int);
    lemma_power_step(2, 0x32cdcafae152df290ed9fa9b80caa8174cbnat, 0x1966e57d70a96f94876cfd4dc06nat, 0x226f4745185a0bc61d038258ba122c59b05int, 0, 0x62b9bb4e5c21862c9d32750963c4fe9aaaint);
    lemma_power_step(2, 0x32cdcafae152df290ed9fa9b80caa8174cbnat, 0x32cdcafae152df290ed9fa9b80cnat, 0x62b9bb4e5c21862c9d32750963c4fe9aaaint, 1, 0x2c9cdbc140826a018d4c35d9bbf1fa655b3int);
    lemma_power_step(2, 0x32cdcafae152df290ed9fa9b80caa8174cbnat, 0x659b95f5c2a5be521db3f537019nat, 0x2c9cdbc140826a018d4c35d9bbf1fa655b3int, 0, 0x21a327d662f1dde4974011979b7e85abd3dint);
    lemma_power_step(2, 0x32cdcafae152df290ed9fa9b80caa8174cbnat, 0xcb372beb854b7ca43b67ea6e032nat, 0x21a327d662f1dde4974011979b7e85abd3dint, 1, 0x3ccde01c0a9f0bb46adb76e5acc146cae6int);
    lemma_power_step(2, 0x32cdcafae152df290ed9fa9b80caa8174cbnat, 0x1966e57d70a96f94876cfd4dc065nat, 0x3ccde01c0a9f0bb46adb76e5acc146cae6int, 0, 0x2654955a0cb2d213877225922f634938655int);
    lemma_power_step(2, 0x32cdcafae152df290ed9fa9b80caa8174cbnat, 0x32cdcafae152df290ed9fa9b80canat, 0x2654955a0cb2d213877225922f634938655int, 1, 0x25f4e82ee000f93747a11eb555bd6589767int);
    lemma_power_step(2, 0x32cdcafae152df290ed9fa9b80caa8174cbnat, 0x659b95f5c2a5be521db3f5370195nat, 0x25f4e82ee000f93747a11eb555bd6589767int, 0, 0x65360cef0cbaa1aed41378b5f97336f0f1int);
    lemma_power_step(2, 0x32cdcafae152df290ed9fa9b80caa8174cbnat, 0xcb372beb854b7ca43b67ea6e032anat, 0x65360cef0cbaa1aed41378b5f97336f0f1int, 1, 0x2202923647e2806ae06ee3e7f6dc0a1fecfint);
    lemma_power_step(2, 0x32cdcafae152df290ed9fa9b80caa8174cbnat, 0x1966e57d70a96f94876cfd4dc0655nat, 0x2202923647e2806ae06ee3e7f6dc0a1fecfint, 0, 0xb27ce908892a1f5e39a86e0c18b16f1ac1int);
    lemma_power_step(2, 0x32cdcafae152df290ed9fa9b80caa8174cbnat, 0x32cdcafae152df290ed9fa9b80caanat, 0xb27ce908892a1f5e39a86e0c18b16f1ac1int, 1, 0x19573aa5a9fc8741922f232011489ba1392int);
    lemma_power_step(2, 0x32cdcafae152df290ed9fa9b80caa8174cbnat, 0x659b95f5c2a5be521db3f53701955nat, 0x19573aa5a9fc8741922f232011489ba1392int, 0, 0xeec4b4d1b2f48ff202221e23308cd054ddint);
    lemma_power_step(2, 0x32cdcafae152df290ed9fa9b80caa8174cbnat, 0xcb372beb854b7ca43b67ea6e032aanat, 0xeec4b4d1b2f48ff202221e23308cd054ddint, 0, 0xb3b6a0ead237c184409c999900fa8cb4deint);
    lemma_power_step(2, 0x32cdcafae152df290ed9fa9b80caa8174cbnat, 0x1966e57d70a96f94876cfd4dc06554nat, 0xb3b6a0ead237c184409c999900fa8cb4deint, 0, 0x11dd121fe332fbd2d3eb76eb06270c59761int);
    lemma_power_step(2, 0x32cdcafae152df290ed9fa9b80caa8174cbnat, 0x32cdcafae152df290ed9fa9b80caa8nat, 0x11dd121fe332fbd2d3eb76eb06270c59761int, 0, 0x9dc15313973e8af7b32b0786f7f02d471fint);
    lemma_power_step(2, 0x32cdcafae152df290ed9fa9b80caa8174cbnat, 0x659b95f5c2a5be521db3f537019550nat, 0x9dc15313973e8af7b32b0786f7f02d471fint, 0, 0x1b57d39bdefe45d282d9ab4044d0f8664a6int);
    lemma_power_step(2, 0x32cdcafae152df290ed9fa9b80caa8174cbnat, 0xcb372beb854b7ca43b67ea6e032aa0nat, 0x1b57d39bdefe45d282d9ab4044d0f8664a6int, 0, 0x29e932896f35c4618cb2a570d516e9caedint);
    lemma_power_step(2, 0x32cdcafae152df290ed9fa9b80caa8174cbnat, 0x1966e57d70a96f94876cfd4dc065540nat, 0x29e932896f35c4618cb2a570d516e9caedint, 1, 0x894486865a48522b98dfee0ad00074d993int);
    lemma_power_step(2, 0x32cdcafae152df290ed9fa9b80caa8174cbnat, 0x32cdcafae152df290ed9fa9b80caa81nat, 0x894486865a48522b98dfee0ad00074d993int, 0, 0x125d850f66f0581b53fb6949d5d9c1c7c6bint);
    lemma_power_step(2, 0x32cdcafae152df290ed9fa9b80caa8174cbnat, 0x659b95f5c2a5be521db3f5370195502nat, 0x125d850f66f0581b53fb6949d5d9c1c7c6bint, 1, 0x2d3bf16e8f0d1c3ca9bcff9a5b2c7203333int);
    lemma_power_step(2, 0x32cdcafae152df290ed9fa9b80caa8174cbnat, 0xcb372beb854b7ca43b67ea6e032aa05nat, 0x2d3bf16e8f0d1c3ca9bcff9a5b2c7203333int, 1, 0x2f16d0b901abd63ac6d0b348d51a40e022int);
    lemma_power_step(2, 0x32cdcafae152df290ed9fa9b80caa8174cbnat, 0x1966e57d70a96f94876cfd4dc065540bnat, 0x2f16d0b901abd63ac6d0b348d51a40e022int, 1, 0x217e96b10f5a36326bff84a88cf5d53efc7int);
    lemma_power_step(2, 0x32cdcafae152df290ed9fa9b80caa8174cbnat, 0x32cdcafae152df290ed9fa9b80caa817nat, 0x217e96b10f5a36326bff84a88cf5d53efc7int, 0, 0x219ce99a20831babb716224c487cfc55112int);
    lemma_power_step(2, 0x32cdcafae152df290ed9fa9b80caa8174cbnat, 0x659b95f5c2a5be521db3f5370195502enat, 0x219ce99a20831babb716224c487cfc55112int, 1, 0x14d516c2afe9b7c12cbe80b667f86e67b39int);
    lemma_power_step(2, 0x32cdcafae152df290ed9fa9b80caa8174cbnat, 0xcb372beb854b7ca43b67ea6e032aa05dnat, 0x14d516c2afe9b7c12cbe80b667f86e67b39int, 0, 0xd0d4f97dd9204aa6563b2d0ee818ffd5bdint);
    lemma_power_step(2, 0x32cdcafae152df290ed9fa9b80caa8174cbnat, 0x1966e57d70a96f94876cfd4dc065540banat, 0xd0d4f97dd9204aa6563b2d0ee818ffd5bdint, 0, 0x21b62e8d6f71b7edeaf475e3e6df3c15eeint);
    lemma_power_step(2, 0x32cdcafae152df290ed9fa9b80caa8174cbnat, 0x32cdcafae152df290ed9fa9b80caa8174nat, 0x21b62e8d6f71b7edeaf475e3e6df3c15eeint, 1, 0x14f34465eb9993c3f93f5b1a1ab07af7aaaint);
    lemma_power_step(2, 0x32cdcafae152df290ed9fa9b80caa8174cbnat, 0x659b95f5c2a5be521db3f5370195502e9nat, 0x14f34465eb9993c3f93f5b1a1ab07af7aaaint, 1, 0x269be3319f6a38c4658f29bace1415949int);
    lemma_power_step(2, 0x32cdcafae152df290ed9fa9b80caa8174cbnat, 0xcb372beb854b7ca43b67ea6e032aa05d3nat, 0x269be3319f6a38c4658f29bace1415949int, 0, 0x14a334d4f1eae2eaebd9afa6def563715c0int);
    lemma_power_step(2, 0x32cdcafae152df290ed9fa9b80caa8174cbnat, 0x1966e57d70a96f94876cfd4dc065540ba6nat, 0x14a334d4f1eae2eaebd9afa6def563715c0int, 0, 0x1afe18db381deb3799961f7298109060fint);
    lemma_power_step(2, 0x32cdcafae152df290ed9fa9b80caa8174cbnat, 0x32cdcafae152df290ed9fa9b80caa8174cnat, 0x1afe18db381deb3799961f7298109060fint, 1, 0x2cb8689851fa477ea43da5249315afc3bf6int);
    lemma_power_step(2, 0x32cdcafae152df290ed9fa9b80caa8174cbnat, 0x659b95f5c2a5be521db3f5370195502e99nat, 0x2cb8689851fa477ea43da5249315afc3bf6int, 0, 0x13b095d47446f7c79e59ebbf9ad860a127dint);
    lemma_power_step(2, 0x32cdcafae152df290ed9fa9b80caa8174cbnat, 0xcb372beb854b7ca43b67ea6e032aa05d32nat, 0x13b095d47446f7c79e59ebbf9ad860a127dint, 1, 0x32cdcafae152df290ed9fa9b80caa8174caint);
    lemma_power_step(2, 0x32cdcafae152df290ed9fa9b80caa8174cbnat, 0x1966e57d70a96f94876cfd4dc065540ba65nat, 0x32cdcafae152df290ed9fa9b80caa8174caint, 0, 1);
}

/// `p = 276602624281642239937218680557139826668747` is prime: `q =
/// 19757330305831588566944191468367130476339` is a prime above the square root
/// of `p` that divides `p - 1`, 2 to the power `p - 1` is one modulo `p`, and
/// 2 to the power `(p - 1) / q`, less one, has an inverse modulo `p`.
proof fn lemma_prime_276602624281642239937218680557139826668747()
    ensures
        is_prime(0x32cdcafae152df290ed9fa9b80caa8174cbnat),
{
    lemma_prime_19757330305831588566944191468367130476339();
    lemma_power_16();
    lemma_power_zero(2, 0x32cdcafae152df290ed9fa9b80caa8174cbnat);
    lemma_power_step(2, 0x32cdcafae152df290ed9fa9b80caa8174cbnat, 0, 1, 1, 2);
    lemma_power_step(2, 0x32cdcafae152df290ed9fa9b80caa8174cbnat, 1, 2, 1, 8);
    lemma_power_step(2, 0x32cdcafae152df290ed9fa9b80caa8174cbnat, 3, 8, 1, 128);
    lemma_power_step(2, 0x32cdcafae152df290ed9fa9b80caa8174cbnat, 7, 128, 0, 16384);
    lemma_criterion_large_factor(0x32cdcafae152df290ed9fa9b80caa8174cbnat, 2, 0x3a0fc367dcf0ff0a5a1db0b1b7c3093f33nat, 16384, 0x114761f57a17276184231256cbd81b2ad93nat);
}

/// A power of 2 modulo the group order.
proof fn lemma_power_17()
    ensures
        power_mod(2, 0x800000000000nat, 0x1000000000000000000000000000000014def9dea2f79cd65812631a5cf5d3ednat) == 0xd6811c8eabda6d8d73591e3310acab2f104a7b42cbcad290cb8fc9a1439457eint,
{
    lemma_power_zero(2, 0x1000000000000000000000000000000014def9dea2f79cd65812631a5cf5d3ednat);
    lemma_power_step(2, 0x1000000000000000000000000000000014def9dea2f79cd65812631a5cf5d3ednat, 0, 1, 1, 2);
    lemma_power_step(2, 0x1000000000000000000000000000000014def9dea2f79cd65812631a5cf5d3ednat, 1, 2, 0, 4);
    lemma_power_step(2, 0x1000000000000000000000000000000014def9dea2f79cd65812631a5cf5d3ednat, 2, 4, 0, 16);
    lemma_power_step(2, 0x1000000000000000000000000000000014def9dea2f79cd65812631a5cf5d3ednat, 4, 16, 0, 256);
    lemma_power_step(2, 0x1000000000000000000000000000000014def9dea2f79cd65812631a5cf5d3ednat, 8, 256, 0, 65536);
    lemma_power_step(2, 0x1000000000000000000000000000000014def9dea2f79cd65812631a5cf5d3ednat, 16, 65536, 0, 0x100000000int);
    lemma_power_step(2, 0x1000000000000000000000000000000014def9dea2f79cd65812631a5cf5d3ednat, 32, 0x100000000int, 0, 0x10000000000000000int);
    lemma_power_step(2, 0x1000000000000000000000000000000014def9dea2f79cd65812631a5cf5d3ednat, 64, 0x10000000000000000int, 0, 0x100000000000000000000000000000000int);
    lemma_power_step(2, 0x1000000000000000000000000000000014def9dea2f79cd65812631a5cf5d3ednat, 128, 0x100000000000000000000000000000000int, 0, 0xffffffffffffffffffffffffffffffec6ef5bf4737dcf70d6ec31748d98951dint);
    lemma_power_step(2, 0x1000000000000000000000000000000014def9dea2f79cd65812631a5cf5d3ednat, 256, 0xffffffffffffffffffffffffffffffec6ef5bf4737dcf70d6ec31748d98951dint, 0, 0x399411b7c309a3dceec73d217f5be65d00e1ba768859347a40611e3449c0f01int);
    lemma_power_step(2, 0x1000000000000000000000000000000014def9dea2f79cd65812631a5cf5d3ednat, 512, 0x399411b7c309a3dceec73d217f5be65d00e1ba768859347a40611e3449c0f01int, 0, 0x9dc924e5a45ffd7e7faf80eb68700589d31cab2023493f73a3dc22242419a0dint);
    lemma_power_step(2, 0x1000000000000000000000000000000014def9dea2f79cd65812631a5cf5d3ednat, 1024, 0x9dc924e5a45ffd7e7faf80eb68700589d31cab2023493f73a3dc22242419a0dint, 0, 0xdeb9e5998bda5f0202c1218e9a2a2dd95b64402f5ba13ad36151daa50cc8569int);
    lemma_power_step(2, 0x1000000000000000000000000000000014def9dea2f79cd65812631a5cf5d3ednat, 2048, 0xdeb9e5998bda5f0202c1218e9a2a2dd95b64402f5ba13ad36151daa50cc8569int, 0, 0xf1c7e9a75c48198b3ce05d5df3f6cf8528fbd8e8942860d8566135af9bbc5c8int);
    lemma_power_step(2, 0x1000000000000000000000000000000014def9dea2f79cd65812631a5cf5d3ednat, 4096, 0xf1c7e9a75c48198b3ce05d5df3f6cf8528fbd8e8942860d8566135af9bbc5c8int, 0, 0xf90759d8b953191d2b8c799ad9bafd82659895124250b27056a744af9ecb850int);
    lemma_power_step(2, 0x1000000000000000000000000000000014def9dea2f79cd65812631a5cf5d3ednat, 8192, 0xf90759d8b953191d2b8c799ad9bafd82659895124250b27056a744af9ecb850int, 0, 0xc7b79e5aed23f1543a6f18cc20a0caecacc72057819496f257f671fcac9fa56int);
    lemma_power_step(2, 0x1000000000000000000000000000000014def9dea2f79cd65812631a5cf5d3ednat, 16384, 0xc7b79e5aed23f1543a6f18cc20a0caecacc72057819496f257f671fcac9fa56int, 0, 0xefb4248d3969819eedbf670a3a5735af39ad627f4f938e0b638746eaaad66ccint);
    lemma_power_step(2, 0x1000000000000000000000000000000014def9dea2f79cd65812631a5cf5d3ednat, 32768, 0xefb4248d3969819eedbf670a3a5735af39ad627f4f938e0b638746eaaad66ccint, 0, 0xa93ee1af2e4a00398aef9eb9d8164c219dfc6f7eda4a0fef4144ae4b5b695cbint);
    lemma_power_step(2, 0x1000000000000000000000000000000014def9dea2f79cd65812631a5cf5d3ednat, 65536, 0xa93ee1af2e4a00398aef9eb9d8164c219dfc6f7eda4a0fef4144ae4b5b695cbint, 0, 0x9a45c99539976a1a876f6d367510f80f438fd0480d7513b0181c3947c207337int);
    lemma_power_step(2, 0x1000000000000000000000000000000014def9dea2f79cd65812631a5cf5d3ednat, 131072, 0x9a45c99539976a1a876f6d367510f80f438fd0480d7513b0181c3947c207337int, 0, 0xb40dea20a301c5fd0ae33a4008645a8b36f4efbb21dcab4689259e1291cfb3dint);
    lemma_power_step(2, 0x1000000000000000000000000000000014def9dea2f79cd65812631a5cf5d3ednat, 262144, 0xb40dea20a301c5fd0ae33a4008645a8b36f4efbb21dcab4689259e1291cfb3dint, 0, 0x80b3b8a9dae45e82a5ebade02766c3f7d89be7efd9207c27437c23609a4f92int);
    lemma_power_step(2, 0x1000000000000000000000000000000014def9dea2f79cd65812631a5cf5d3ednat, 524288, 0x80b3b8a9dae45e82a5ebade02766c3f7d89be7efd9207c27437c23609a4f92int, 0, 0x752169d675dee8276253ab3e418668bc35b5fdf10bf904c060523f8f8b5fe4eint);
    lemma_power_step(2, 0x1000000000000000000000000000000014def9dea2f79cd65812631a5cf5d3ednat, 1048576, 0x752169d675dee8276253ab3e418668bc35b5fdf10bf904c060523f8f8b5fe4eint, 0, 0xd4e09b5284057f34604bd927037ec8e399d7386233ee215d71f980cf804d092int);
    lemma_power_step(2, 0x1000000000000000000000000000000014def9dea2f79cd65812631a5cf5d3ednat, 2097152, 0xd4e09b5284057f34604bd927037ec8e399d7386233ee215d71f980cf804d092int, 0, 0xf00282ba5ffc8571dbc4e9d3ce1065d888e0db16e10f687f5a800e328271cf8int);
    lemma_power_step(2, 0x1000000000000000000000000000000014def9dea2f79cd65812631a5cf5d3ednat, 4194304, 0xf00282ba5ffc8571dbc4e9d3ce1065d888e0db16e10f687f5a800e328271cf8int, 0, 0xb936c3bf0654f9517a79372f9cf6f910329766ccfee54b193f53c465502afc3int);
    lemma_power_step(2, 0x1000000000000000000000000000000014def9dea2f79cd65812631a5cf5d3ednat, 8388608, 0xb936c3bf0654f9517a79372f9cf6f910329766ccfee54b193f53c465502afc3int, 0, 0x16f8b98b53a2b47ac36b4217ec580cdbcd8a57ab84386ad2d36e6d56858c46fint);
    lemma_power_step(2, 0x1000000000000000000000000000000014def9dea2f79cd65812631a5cf5d3ednat, 16777216, 0x16f8b98b53a2b47ac36b4217ec580cdbcd8a57ab84386ad2d36e6d56858c46fint, 0, 0x715423f4fadb323ce6fe94d3280f928eeb25c0f288ad1854ff163a8e417c1dfint);
    lemma_power_step(2, 0x1000000000000000000000000000000014def9dea2f79cd65812631a5cf5d3ednat, 33554432, 0x715423f4fadb323ce6fe94d3280f928eeb25c0f288ad1854ff163a8e417c1dfint, 0, 0xd51bb25ee54a8300a067cee58b1195aae994be00053cb3c3c52c7c194c937deint);
    lemma_power_step(2, 0x1000000000000000000000000000000014def9dea2f79cd65812631a5cf5d3ednat, 67108864, 0xd51bb25ee54a8300a067cee58b1195aae994be00053cb3c3c52c7c194c937deint, 0, 0x1ff82edfaf8bbed03756e9d3e6150eebfa87466b1c1e6bdaacde5a61e55ce3eint);
    lemma_power_step(2, 0x1000000000000000000000000000000014def9dea2f79cd65812631a5cf5d3ednat, 134217728, 0x1ff82edfaf8bbed03756e9d3e6150eebfa87466b1c1e6bdaacde5a61e55ce3eint, 0, 0xb23dc51b8f0ccb57c2ed594db5fa6ddd5d6f9cacd10a39a429460f6e00e0793int);
    lemma_power_step(2, 0x1000000000000000000000000000000014def9dea2f79cd65812631a5cf5d3ednat, 268435456, 0xb23dc51b8f0ccb57c2ed594db5fa6ddd5d6f9cacd10a39a429460f6e00e0793int, 0, 0x669f4ab0966133b58f0e984432e74440e0a68cbedbe8f48b33f921207bf984bint);
    lemma_power_step(2, 0x1000000000000000000000000000000014def9dea2f79cd65812631a5cf5d3ednat, 536870912, 0x669f4ab0966133b58f0e984432e74440e0a68cbedbe8f48b33f921207bf984bint, 0, 0xb6a5560fc0808f00b7397e44fdaf7c98330d229827724199bc45f5c468b995fint);
    lemma_power_step(2, 0x1000000000000000000000000000000014def9dea2f79cd65812631a5cf5d3ednat, 0x40000000nat, 0xb6a5560fc0808f00b7397e44fdaf7c98330d229827724199bc45f5c468b995fint, 0, 0x1c5bbf8c455bfb5d8833374bb0df00db0680d15ebe1ae314e0462426e74efdaint);
    lemma_power_step(2, 0x1000000000000000000000000000000014def9dea2f79cd65812631a5cf5d3ednat, 0x80000000nat, 0x1c5bbf8c455bfb5d8833374bb0df00db0680d15ebe1ae314e0462426e74efdaint, 0, 0x5964aa76446b40efafb7760a871c45f199c9738b2187a29c8b67868d8bdffcaint);
    lemma_power_step(2, 0x1000000000000000000000000000000014def9dea2f79cd65812631a5cf5d3ednat, 0x100000000nat, 0x5964aa76446b40efafb7760a871c45f199c9738b2187a29c8b67868d8bdffcaint, 0, 0x9190601d57ca3a992917dcc8f727f9d1118e24f2cfe9775fe3eb52f6d60f38fint);
    lemma_power_step(2, 0x1000000000000000000000000000000014def9dea2f79cd65812631a5cf5d3ednat, 0x200000000nat, 0x9190601d57ca3a992917dcc8f727f9d1118e24f2cfe9775fe3eb52f6d60f38fint, 0, 0x62296e78b67e35ae43867bb9e4a288445f7dfdfd7751bf44c40224c6349f1dfint);
    lemma_power_step(2, 0x1000000000000000000000000000000014def9dea2f79cd65812631a5cf5d3ednat, 0x400000000nat, 0x62296e78b67e35ae43867bb9e4a288445f7dfdfd7751bf44c40224c6349f1dfint, 0, 0xa9e5f4217e03f6ced9f9b62794ae9947f13a542b4c01546af8a852e8cb6b451int);
    lemma_power_step(2, 0x1000000000000000000000000000000014def9dea2f79cd65812631a5cf5d3ednat, 0x800000000nat, 0xa9e5f4217e03f6ced9f9b62794ae9947f13a542b4c01546af8a852e8cb6b451int, 0, 0x3a85a501f1d49c691dd426b05dc1c8dd5e0303795741dd55fc7abfdb0b0360aint);
    lemma_power_step(2, 0x1000000000000000000000000000000014def9dea2f79cd65812631a5cf5d3ednat, 0x1000000000nat, 0x3a85a501f1d49c691dd426b05dc1c8dd5e0303795741dd55fc7abfdb0b0360aint, 0, 0x53800b5680c4717af699108a2fc6d7216c142a271a37c7188a9b6b72b9294e6int);
    lemma_power_step(2, 0x1000000000000000000000000000000014def9dea2f79cd65812631a5cf5d3ednat, 0x2000000000nat, 0x53800b5680c4717af699108a2fc6d7216c142a271a37c7188a9b6b72b9294e6int, 0, 0xc801a8c9ac68530a97bc81c0cda9b1d4bcb235c31f086fe558eb2660e6a9f07int);
    lemma_power_step(2, 0x1000000000000000000000000000000014def9dea2f79cd65812631a5cf5d3ednat, 0x4000000000nat, 0xc801a8c9ac68530a97bc81c0cda9b1d4bcb235c31f086fe558eb2660e6a9f07int, 0, 0x3f7349eb3850c5abc403d5baaa216526f4f765472e6c80d47282486608807f3int);
    lemma_power_step(2, 0x1000000000000000000000000000000014def9dea2f79cd65812631a5cf5d3ednat, 0x8000000000nat, 0x3f7349eb3850c5abc403d5baaa216526f4f765472e6c80d47282486608807f3int, 0, 0x46b8a5833e92b5e6806c4b7e25410a472460c487dea27818e47d29c76c9a4e2int);
    lemma_power_step(2, 0x1000000000000000000000000000000014def9dea2f79cd65812631a5cf5d3ednat, 0x10000000000nat, 0x46b8a5833e92b5e6806c4b7e25410a472460c487dea27818e47d29c76c9a4e2int, 0, 0x8b4a56e8f40ea00c522a2137f37a6690c1f4272b204fe49d09bc9084953610cint);
    lemma_power_step(2, 0x1000000000000000000000000000000014def9dea2f79cd65812631a5cf5d3ednat, 0x20000000000nat, 0x8b4a56e8f40ea00c522a2137f37a6690c1f4272b204fe49d09bc9084953610cint, 0, 0x6b35eb9cd9e69315f33700e5da1421d858102815339372d11253d515b1299cdint);
    lemma_power_step(2, 0x1000000000000000000000000000000014def9dea2f79cd65812631a5cf5d3ednat, 0x40000000000nat, 0x6b35eb9cd9e69315f33700e5da1421d858102815339372d11253d515b1299cdint, 0, 0x2ddebea0926e7966dc962d63c06b79272a3fbc2ef910ce09653285cb829833bint);
    lemma_power_step(2, 0x1000000000000000000000000000000014def9dea2f79cd65812631a5cf5d3ednat, 0x80000000000nat, 0x2ddebea0926e7966dc962d63c06b79272a3fbc2ef910ce09653285cb829833bint, 0, 0x4d5af79fe30a5a582abf5caeb3e9f084937a5df69ec73276e5b4dc2c7ca74aint);
    lemma_power_step(2, 0x1000000000000000000000000000000014def9dea2f79cd65812631a5cf5d3ednat, 0x100000000000nat, 0x4d5af79fe30a5a582abf5caeb3e9f084937a5df69ec73276e5b4dc2c7ca74aint, 0, 0x7f02f02bad98ca006f94c4c4c3457e191ff42c457bf2e3c8add0d306d611f15int);
    lemma_power_step(2, 0x1000000000000000000000000000000014def9dea2f79cd65812631a5cf5d3ednat, 0x200000000000nat, 0x7f02f02bad98ca006f94c4c4c3457e191ff42c457bf2e3c8add0d306d611f15int, 0, 0xb15bf7a65d695811bc038ffd22cfa5c3a8c668d04ea1062ab1814bd5af621e9int);
    lemma_power_step(2, 0x1000000000000000000000000000000014def9dea2f79cd65812631a5cf5d3ednat, 0x400000000000nat, 0xb15bf7a65d695811bc038ffd22cfa5c3a8c668d04ea1062ab1814bd5af621e9int, 0, 0xd6811c8eabda6d8d73591e3310acab2f104a7b42cbcad290cb8fc9a1439457eint);
}

/// A power of 2 modulo the group order.
proof fn lemma_power_18()
    ensures
        power_mod(2, 0x800000000000000000000000nat, 0x1000000000000000000000000000000014def9dea2f79cd65812631a5cf5d3ednat) == 0xbac2a5576eeeadcd8e61a2aaa3096fbbac2898422704f58a0040539108777a6int,
{
    lemma_power_17();
    lemma_power_step(2, 0x1000000000000000000000000000000014def9dea2f79cd65812631a5cf5d3ednat, 0x800000000000nat, 0xd6811c8eabda6d8d73591e3310acab2f104a7b42cbcad290cb8fc9a1439457eint, 0, 0xa15a032c5a1029c40b3bd957978b9a6c79be1aed82b5a56f91042fbd4a2671fint);
    lemma_power_step(2, 0x1000000000000000000000000000000014def9dea2f79cd65812631a5cf5d3ednat, 0x1000000000000nat, 0xa15a032c5a1029c40b3bd957978b9a6c79be1aed82b5a56f91042fbd4a2671fint, 0, 0x8e49a70380f2c75d87b72973796b4bf25506655bbbd59e784ff5199880cbbe2int);
    lemma_power_step(2, 0x1000000000000000000000000000000014def9dea2f79cd65812631a5cf5d3ednat, 0x2000000000000nat, 0x8e49a70380f2c75d87b72973796b4bf25506655bbbd59e784ff5199880cbbe2int, 0, 0xcb00a6efe0b24f3e24bba3bb2b83c5c168175eaee8e49184fa89f228e26ba5eint);
    lemma_power_step(2, 0x1000000000000000000000000000000014def9dea2f79cd65812631a5cf5d3ednat, 0x4000000000000nat, 0xcb00a6efe0b24f3e24bba3bb2b83c5c168175eaee8e49184fa89f228e26ba5eint, 0, 0x37c730646014e4c75a59bf0e941a4b6c6b989c27c3b161e684b229dc3ee9918int);
    lemma_power_step(2, 0x1000000000000000000000000000000014def9dea2f79cd65812631a5cf5d3ednat, 0x8000000000000nat, 0x37c730646014e4c75a59bf0e941a4b6c6b989c27c3b161e684b229dc3ee9918int, 0, 0xcbddf9b1c03448d616a3bccb854e8c1c4317bb28ba3106cbf8d84f46c8cb578int);
    lemma_power_step(2, 0x1000000000000000000000000000000014def9dea2f79cd65812631a5cf5d3ednat, 0x10000000000000nat, 0xcbddf9b1c03448d616a3bccb854e8c1c4317bb28ba3106cbf8d84f46c8cb578int, 0, 0x4ac046ffd02abe5bd439a5e578c9b71a36ab67adae6bf4fb34d7e4215486f08int);
    lemma_power_step(2, 0x1000000000000000000000000000000014def9dea2f79cd65812631a5cf5d3ednat, 0x20000000000000nat, 0x4ac046ffd02abe5bd439a5e578c9b71a36ab67adae6bf4fb34d7e4215486f08int, 0, 0xa501066a23e0e47a0ffb2a26036c52f4568d4f60930331273d90741dcdd4ebbint);
    lemma_power_step(2, 0x1000000000000000000000000000000014def9dea2f79cd65812631a5cf5d3ednat, 0x40000000000000nat, 0xa501066a23e0e47a0ffb2a26036c52f4568d4f60930331273d90741dcdd4ebbint, 0, 0x1565c0121d83d14f4977bfda9d151449d661c82075cb6bebb50afa06da93590int);
    lemma_power_step(2, 0x1000000000000000000000000000000014def9dea2f79cd65812631a5cf5d3ednat, 0x80000000000000nat, 0x1565c0121d83d14f4977bfda9d151449d661c82075cb6bebb50afa06da93590int, 0, 0x2fbb143967106f138133045c8dd258d57981f7b77ef2efb08f99a6511515820int);
    lemma_power_step(2, 0x1000000000000000000000000000000014def9dea2f79cd65812631a5cf5d3ednat, 0x100000000000000nat, 0x2fbb143967106f138133045c8dd258d57981f7b77ef2efb08f99a6511515820int, 0, 0x5f57d310aba837039c89ef9056542ea88e950c504bfe91c4f6c005d0b1443a4int);
    lemma_power_step(2, 0x1000000000000000000000000000000014def9dea2f79cd65812631a5cf5d3ednat, 0x200000000000000nat, 0x5f57d310aba837039c89ef9056542ea88e950c504bfe91c4f6c005d0b1443a4int, 0, 0xcff1cc4ee2d7dba7b706a12645eb85e2d527b95e5e48a1cbeeb1cb8fa45a5c7int);
    lemma_power_step(2, 0x1000000000000000000000000000000014def9dea2f79cd65812631a5cf5d3ednat, 0x400000000000000nat, 0xcff1cc4ee2d7dba7b706a12645eb85e2d527b95e5e48a1cbeeb1cb8fa45a5c7int, 0, 0xbd60731031b51dc707691fe025716becc2fdb71079652754e8cfd47617c5076int);
    lemma_power_step(2, 0x1000000000000000000000000000000014def9dea2f79cd65812631a5cf5d3ednat, 0x800000000000000nat, 0xbd60731031b51dc707691fe025716becc2fdb71079652754e8cfd47617c5076int, 0, 0x5f7bbf69ad7b2fd5ecbf6baaab18e3fdb6259e6f88fae12fd756d6342276119int);
    lemma_power_step(2, 0x1000000000000000000000000000000014def9dea2f79cd65812631a5cf5d3ednat, 0x1000000000000000nat, 0x5f7bbf69ad7b2fd5ecbf6baaab18e3fdb6259e6f88fae12fd756d6342276119int, 0, 0xc23cbe1f35b897ac311c152126680ab9cd95188328b53e6f7384638c53c9d2fint);
    lemma_power_step(2, 0x1000000000000000000000000000000014def9dea2f79cd65812631a5cf5d3ednat, 0x2000000000000000nat, 0xc23cbe1f35b897ac311c152126680ab9cd95188328b53e6f7384638c53c9d2fint, 0, 0xa1217a0e4f33f393b73fb20acc0018cde1fd16c907c6e0b27d3128fe7f71da0int);
    lemma_power_step(2, 0x1000000000000000000000000000000014def9dea2f79cd65812631a5cf5d3ednat, 0x4000000000000000nat, 0xa1217a0e4f33f393b73fb20acc0018cde1fd16c907c6e0b27d3128fe7f71da0int, 0, 0x8378350f8ed218100c990b4163df5ce92a18c9d6043f7edf7885fd66eedf899int);
    lemma_power_step(2, 0x1000000000000000000000000000000014def9dea2f79cd65812631a5cf5d3ednat, 0x8000000000000000nat, 0x8378350f8ed218100c990b4163df5ce92a18c9d6043f7edf7885fd66eedf899int, 0, 0x6e1bed5c833b22f2e84961eca25da6c9b72395be572928eaa9e5a14184fa2e0int);
    lemma_power_step(2, 0x1000000000000000000000000000000014def9dea2f79cd65812631a5cf5d3ednat, 0x10000000000000000nat, 0x6e1bed5c833b22f2e84961eca25da6c9b72395be572928eaa9e5a14184fa2e0int, 0, 0xde1baffed0243d645702a5ef6cdd6e66f91e95aece6b27621710c3dd87fc1e7int);
    lemma_power_step(2, 0x1000000000000000000000000000000014def9dea2f79cd65812631a5cf5d3ednat, 0x20000000000000000nat, 0xde1baffed0243d645702a5ef6cdd6e66f91e95aece6b27621710c3dd87fc1e7int, 0, 0x6306ce46343b328ed2cf7c4893eb94dacac371b791e64340661285488d8493int);
    lemma_power_step(2, 0x1000000000000000000000000000000014def9dea2f79cd65812631a5cf5d3ednat, 0x40000000000000000nat, 0x6306ce46343b328ed2cf7c4893eb94dacac371b791e64340661285488d8493int, 0, 0xb8b6940874750f2da3ab5a234609fa615dbf95ef0dcb830e9982b28d3222313int);
    lemma_power_step(2, 0x1000000000000000000000000000000014def9dea2f79cd65812631a5cf5d3ednat, 0x80000000000000000nat, 0xb8b6940874750f2da3ab5a234609fa615dbf95ef0dcb830e9982b28d3222313int, 0, 0x3a2007a25d436a2b27e3eed02e9c535ba8cf3689ead175b34ea25946e3d6d36int);
    lemma_power_step(2, 0x1000000000000000000000000000000014def9dea2f79cd65812631a5cf5d3ednat, 0x100000000000000000nat, 0x3a2007a25d436a2b27e3eed02e9c535ba8cf3689ead175b34ea25946e3d6d36int, 0, 0x42faff89ace6a0ba527bc5e1648c747cd98881921813642f0247c5ed4cd9aacint);
    lemma_power_step(2, 0x1000000000000000000000000000000014def9dea2f79cd65812631a5cf5d3ednat, 0x200000000000000000nat, 0x42faff89ace6a0ba527bc5e1648c747cd98881921813642f0247c5ed4cd9aacint, 0, 0x863876b29bd5fb9bc07a268e238b9b803b13df16da97b4894ba9b35309c1ac5int);
    lemma_power_step(2, 0x1000000000000000000000000000000014def9dea2f79cd65812631a5cf5d3ednat, 0x400000000000000000nat, 0x863876b29bd5fb9bc07a268e238b9b803b13df16da97b4894ba9b35309c1ac5int, 0, 0x14bd0af81af1a8214fa62e723cb3f9614ed7985957a1202026a82c603174b1eint);
    lemma_power_step(2, 0x1000000000000000000000000000000014def9dea2f79cd65812631a5cf5d3ednat, 0x800000000000000000nat, 0x14bd0af81af1a8214fa62e723cb3f9614ed7985957a1202026a82c603174b1eint, 0, 0xcc3c20918e63070ef975f15571b44c2fdd0a8fc26ec5c8b05c12681d42816a1int);
    lemma_power_step(2, 0x1000000000000000000000000000000014def9dea2f79cd65812631a5cf5d3ednat, 0x1000000000000000000nat, 0xcc3c20918e63070ef975f15571b44c2fdd0a8fc26ec5c8b05c12681d42816a1int, 0, 0x67846935030755bbb78717b51eceb6db273d85c8c692038c01bd9162c20f7a8int);
    lemma_power_step(2, 0x1000000000000000000000000000000014def9dea2f79cd65812631a5cf5d3ednat, 0x2000000000000000000nat, 0x67846935030755bbb78717b51eceb6db273d85c8c692038c01bd9162c20f7a8int, 0, 0xb3a3787bf891469fa83319d70a47601b576487c6b8607cd7079e1e4201ca17cint);
    lemma_power_step(2, 0x1000000000000000000000000000000014def9dea2f79cd65812631a5cf5d3ednat, 0x4000000000000000000nat, 0xb3a3787bf891469fa83319d70a47601b576487c6b8607cd7079e1e4201ca17cint, 0, 0xb8a4741052cebda29b726e8904c7e58e12bea27793c4b0a9f176b8946eca1c7int);
    lemma_power_step(2, 0x1000000000000000000000000000000014def9dea2f79cd65812631a5cf5d3ednat, 0x8000000000000000000nat, 0xb8a4741052cebda29b726e8904c7e58e12bea27793c4b0a9f176b8946eca1c7int, 0, 0x35c76169682f1f35777bedd1dd503ee5dbdcf380a7169fe7ba231c8e7b1b67eint);
    lemma_power_step(2, 0x1000000000000000000000000000000014def9dea2f79cd65812631a5cf5d3ednat, 0x10000000000000000000nat, 0x35c76169682f1f35777bedd1dd503ee5dbdcf380a7169fe7ba231c8e7b1b67eint, 0, 0x2a7921f4ecf3109709c90611bfc20436f38339d2f09ac44503878d2161f2c7eint);
    lemma_power_step(2, 0x1000000000000000000000000000000014def9dea2f79cd65812631a5cf5d3ednat, 0x20000000000000000000nat, 0x2a7921f4ecf3109709c90611bfc20436f38339d2f09ac44503878d2161f2c7eint, 0, 0xd6ff6c923cc474e6c355375c2db500c1ac5b29b0f31fe3e9a685f4ca9a2ad14int);
    lemma_power_step(2, 0x1000000000000000000000000000000014def9dea2f79cd65812631a5cf5d3ednat, 0x40000000000000000000nat, 0xd6ff6c923cc474e6c355375c2db500c1ac5b29b0f31fe3e9a685f4ca9a2ad14int, 0, 0x8a86e1db6a5643df88924b14de856ec823effa8093b4997f8907ceb51052983int);
    lemma_power_step(2, 0x1000000000000000000000000000000014def9dea2f79cd65812631a5cf5d3ednat, 0x80000000000000000000nat, 0x8a86e1db6a5643df88924b14de856ec823effa8093b4997f8907ceb51052983int, 0, 0xe9cc52ab81e7885e2c6828adb517f5c218f2dd39840bebff476cd7356b850a4int);
    lemma_power_step(2, 0x1000000000000000000000000000000014def9dea2f79cd65812631a5cf5d3ednat, 0x100000000000000000000nat, 0xe9cc52ab81e7885e2c6828adb517f5c218f2dd39840bebff476cd7356b850a4int, 0, 0x656b62ee12986ab06b33741dfd925eb794fd439254a50fe234ec27777fb3a3aint);
    lemma_power_step(2, 0x1000000000000000000000000000000014def9dea2f79cd65812631a5cf5d3ednat, 0x200000000000000000000nat, 0x656b62ee12986ab06b33741dfd925eb794fd439254a50fe234ec27777fb3a3aint, 0, 0x5a77ca5ae2dde3ee8340da695a0cddacc7eb1a7c36b78bcdc0238662b955a08int);
    lemma_power_step(2, 0x1000000000000000000000000000000014def9dea2f79cd65812631a5cf5d3ednat, 0x400000000000000000000nat, 0x5a77ca5ae2dde3ee8340da695a0cddacc7eb1a7c36b78bcdc0238662b955a08int, 0, 0x878dacd36a6139d15e247ae957921d48a9bbcae73a457b5a92915e805b5596int);
    lemma_power_step(2, 0x1000000000000000000000000000000014def9dea2f79cd65812631a5cf5d3ednat, 0x800000000000000000000nat, 0x878dacd36a6139d15e247ae957921d48a9bbcae73a457b5a92915e805b5596int, 0, 0xf8a7ca3021076303f2ba1ca45441bb6d71cfc0744774a64854148fa8e62d366int);
    lemma_power_step(2, 0x1000000000000000000000000000000014def9dea2f79cd65812631a5cf5d3ednat, 0x1000000000000000000000nat, 0xf8a7ca3021076303f2ba1ca45441bb6d71cfc0744774a64854148fa8e62d366int, 0, 0xcc608db561bc080ee91153b36c713a552a16635ecc70b25b9963b5b615587f9int);
    lemma_power_step(2, 0x1000000000000000000000000000000014def9dea2f79cd65812631a5cf5d3ednat, 0x2000000000000000000000nat, 0xcc608db561bc080ee91153b36c713a552a16635ecc70b25b9963b5b615587f9int, 0, 0xbad3d57e8f32a9fe8139f8ef416c98b5e8655c0b0f69984626ee477549460a1int);
    lemma_power_step(2, 0x1000000000000000000000000000000014def9dea2f79cd65812631a5cf5d3ednat, 0x4000000000000000000000nat, 0xbad3d57e8f32a9fe8139f8ef416c98b5e8655c0b0f69984626ee477549460a1int, 0, 0x81ad0c68bb86860afed373e13801ef0ce7568b901e99a19d6945b8f128ee86int);
    lemma_power_step(2, 0x1000000000000000000000000000000014def9dea2f79cd65812631a5cf5d3ednat, 0x8000000000000000000000nat, 0x81ad0c68bb86860afed373e13801ef0ce7568b901e99a19d6945b8f128ee86int, 0, 0x7847b18ddc3e528c989e4c1c18ee795b5ce8dafc6db7ad93fd5ca0c007b3ffdint);
    lemma_power_step(2, 0x1000000000000000000000000000000014def9dea2f79cd65812631a5cf5d3ednat, 0x10000000000000000000000nat, 0x7847b18ddc3e528c989e4c1c18ee795b5ce8dafc6db7ad93fd5ca0c007b3ffdint, 0, 0x748bd01e714536942b1668bbc4575c7ff3392a81016827f5c1b593dc8d78c19int);
    lemma_power_step(2, 0x1000000000000000000000000000000014def9dea2f79cd65812631a5cf5d3ednat, 0x20000000000000000000000nat, 0x748bd01e714536942b1668bbc4575c7ff3392a81016827f5c1b593dc8d78c19int, 0, 0xec2017cfa1b888e5ab7169395b3c92fbc19c92e1be9e25cc6ab6061ae57db68int);
    lemma_power_step(2, 0x1000000000000000000000000000000014def9dea2f79cd65812631a5cf5d3ednat, 0x40000000000000000000000nat, 0xec2017cfa1b888e5ab7169395b3c92fbc19c92e1be9e25cc6ab6061ae57db68int, 0, 0xdb225e81bb43b428859558f6ec78ef8d9fd75e2538e8b07a3ad2e5c16326eb5int);
    lemma_power_step(2, 0x1000000000000000000000000000000014def9dea2f79cd65812631a5cf5d3ednat, 0x80000000000000000000000nat, 0xdb225e81bb43b428859558f6ec78ef8d9fd75e2538e8b07a3ad2e5c16326eb5int, 0, 0x62526fb2dc80fe9e3794ac2a6d82ecf80572fb13b606d89f6d746ee263e76c4int);
    lemma_power_step(2, 0x1000000000000000000000000000000014def9dea2f79cd65812631a5cf5d3ednat, 0x100000000000000000000000nat, 0x62526fb2dc80fe9e3794ac2a6d82ecf80572fb13b606d89f6d746ee263e76c4int, 0, 0xad64fe50a97e52716ffb231afd7b1e91bb4be1af8772b8eafc2b9faf16d7152int);
    lemma_power_step(2, 0x1000000000000000000000000000000014def9dea2f79cd65812631a5cf5d3ednat, 0x200000000000000000000000nat, 0xad64fe50a97e52716ffb231afd7b1e91bb4be1af8772b8eafc2b9faf16d7152int, 0, 0x25b0c5d9b39da22dd17e144381c76ecff3ba96040bf8d70d591afe638e7bf31int);
    lemma_power_step(2, 0x1000000000000000000000000000000014def9dea2f79cd65812631a5cf5d3ednat, 0x400000000000000000000000nat, 0x25b0c5d9b39da22dd17e144381c76ecff3ba96040bf8d70d591afe638e7bf31int, 0, 0xbac2a5576eeeadcd8e61a2aaa3096fbbac2898422704f58a0040539108777a6int);
}

/// A power of 2 modulo the group order.
proof fn lemma_power_19()
    ensures
        power_mod(2, 0x80000000000000000000000000000000a6f7nat, 0x1000000000000000000000000000000014def9dea2f79cd65812631a5cf5d3ednat) == 0x1f4a2ca9de85b2c351b671e990c1a45d4e19ef1160f2bd33ac291ade2e511eeint,
{
    lemma_power_18();
    lemma_power_step(2, 0x1000000000000000000000000000000014def9dea2f79cd65812631a5cf5d3ednat, 0x800000000000000000000000nat, 0xbac2a5576eeeadcd8e61a2aaa3096fbbac2898422704f58a0040539108777a6int, 0, 0x239be1c68863486ab4b01ea8fb3b6712c2b7049d5863261cfeb39a9c3e8a880int);
    lemma_power_step(2, 0x1000000000000000000000000000000014def9dea2f79cd65812631a5cf5d3ednat, 0x1000000000000000000000000nat, 0x239be1c68863486ab4b01ea8fb3b6712c2b7049d5863261cfeb39a9c3e8a880int, 0, 0x9ff4da802e3081a941b86a32a6aecf6220f9040e03cd73af58752e6ef91cd25int);
    lemma_power_step(2, 0x1000000000000000000000000000000014def9dea2f79cd65812631a5cf5d3ednat, 0x2000000000000000000000000nat, 0x9ff4da802e3081a941b86a32a6aecf6220f9040e03cd73af58752e6ef91cd25int, 0, 0x62d9661dbb71b4ca0b8da2def0e11bb8643e5e76a89f8fccb8f626f5c7c068bint);
    lemma_power_step(2, 0x1000000000000000000000000000000014def9dea2f79cd65812631a5cf5d3ednat, 0x4000000000000000000000000nat, 0x62d9661dbb71b4ca0b8da2def0e11bb8643e5e76a89f8fccb8f626f5c7c068bint, 0, 0x8a4d93790c688952ec63cf5e4670a3aa4e59fa27ba0f47eed5f69023b5ce1a6int);
    lemma_power_step(2, 0x1000000000000000000000000000000014def9dea2f79cd65812631a5cf5d3ednat, 0x8000000000000000000000000nat, 0x8a4d93790c688952ec63cf5e4670a3aa4e59fa27ba0f47eed5f69023b5ce1a6int, 0, 0x4450c3b8e25f7b99ae5320a80e38d3246d336742bddc2957893b713335975f8int);
    lemma_power_step(2, 0x1000000000000000000000000000000014def9dea2f79cd65812631a5cf5d3ednat, 0x10000000000000000000000000nat, 0x4450c3b8e25f7b99ae5320a80e38d3246d336742bddc2957893b713335975f8int, 0, 0x9dd4cc3531d58af4a469915d172fa52931777937a5048dd451491d623e25204int);
    lemma_power_step(2, 0x1000000000000000000000000000000014def9dea2f79cd65812631a5cf5d3ednat, 0x20000000000000000000000000nat, 0x9dd4cc3531d58af4a469915d172fa52931777937a5048dd451491d623e25204int, 0, 0x5709b40883a028b67a86b193a49ae9a42a6f1fb0f0a3c4c1112f6df8233a898int);
    lemma_power_step(2, 0x1000000000000000000000000000000014def9dea2f79cd65812631a5cf5d3ednat, 0x40000000000000000000000000nat, 0x5709b40883a028b67a86b193a49ae9a42a6f1fb0f0a3c4c1112f6df8233a898int, 0, 0xe1b9f2aac0ab9ed9a7c34f5f856a08e3206dd716462dfa392af5c7d58a1fdc3int);
    lemma_power_step(2, 0x1000000000000000000000000000000014def9dea2f79cd65812631a5cf5d3ednat, 0x80000000000000000000000000nat, 0xe1b9f2aac0ab9ed9a7c34f5f856a08e3206dd716462dfa392af5c7d58a1fdc3int, 0, 0x7fbb98a293618a6c9edd660d05684c16e2bf5f55c32247c6396aaca71b4d59bint);
    lemma_power_step(2, 0x1000000000000000000000000000000014def9dea2f79cd65812631a5cf5d3ednat, 0x100000000000000000000000000nat, 0x7fbb98a293618a6c9edd660d05684c16e2bf5f55c32247c6396aaca71b4d59bint, 0, 0x927e649989b6083053a0cb46faa78787852cd5ce8605b0840a590eb8b852817int);
    lemma_power_step(2, 0x1000000000000000000000000000000014def9dea2f79cd65812631a5cf5d3ednat, 0x200000000000000000000000000nat, 0x927e649989b6083053a0cb46faa78787852cd5ce8605b0840a590eb8b852817int, 0, 0x730adbff82203bb0545d53b1514d09c37ea84e3b6c6212612bfb049bc6d6e32int);
    lemma_power_step(2, 0x1000000000000000000000000000000014def9dea2f79cd65812631a5cf5d3ednat, 0x400000000000000000000000000nat, 0x730adbff82203bb0545d53b1514d09c37ea84e3b6c6212612bfb049bc6d6e32int, 0, 0x2e94c1f5a7254071f028a60c741ccfa0ab498d7b901bfb22527d0e0f87d3b7dint);
    lemma_power_step(2, 0x1000000000000000000000000000000014def9dea2f79cd65812631a5cf5d3ednat, 0x800000000000000000000000000nat, 0x2e94c1f5a7254071f028a60c741ccfa0ab498d7b901bfb22527d0e0f87d3b7dint, 0, 0xac7bd451d4e2354ef1a6234a016a221e47c271e49dc4a63715f10d40992975int);
    lemma_power_step(2, 0x1000000000000000000000000000000014def9dea2f79cd65812631a5cf5d3ednat, 0x1000000000000000000000000000nat, 0xac7bd451d4e2354ef1a6234a016a221e47c271e49dc4a63715f10d40992975int, 0, 0xc6222f7e2acd2a5dab96d942fdb24f79df75732b69b8eaefc0e537349ed600aint);
    lemma_power_step(2, 0x1000000000000000000000000000000014def9dea2f79cd65812631a5cf5d3ednat, 0x2000000000000000000000000000nat, 0xc6222f7e2acd2a5dab96d942fdb24f79df75732b69b8eaefc0e537349ed600aint, 0, 0x5ce4fd7a55550fae7ffda2853ab32810efb2b6103364d481508cdd3177f561eint);
    lemma_power_step(2, 0x1000000000000000000000000000000014def9dea2f79cd65812631a5cf5d3ednat, 0x4000000000000000000000000000nat, 0x5ce4fd7a55550fae7ffda2853ab32810efb2b6103364d481508cdd3177f561eint, 0, 0x6229c9ff08df2d2f372b7835c3023b650576ec8cb46f3417cc6baf6cd2b7110int);
    lemma_power_step(2, 0x1000000000000000000000000000000014def9dea2f79cd65812631a5cf5d3ednat, 0x8000000000000000000000000000nat, 0x6229c9ff08df2d2f372b7835c3023b650576ec8cb46f3417cc6baf6cd2b7110int, 0, 0xb46a4ac3fd346e317cc3c860442b9dedfef506d6cbe3dc67e82869571e389c6int);
    lemma_power_step(2, 0x1000000000000000000000000000000014def9dea2f79cd65812631a5cf5d3ednat, 0x10000000000000000000000000000nat, 0xb46a4ac3fd346e317cc3c860442b9dedfef506d6cbe3dc67e82869571e389c6int, 0, 0xe5d195859299719376bf78a7dc11981bde0e6be2f6ff8b13b2a76ebe8cd078eint);
    lemma_power_step(2, 0x1000000000000000000000000000000014def9dea2f79cd65812631a5cf5d3ednat, 0x20000000000000000000000000000nat, 0xe5d195859299719376bf78a7dc11981bde0e6be2f6ff8b13b2a76ebe8cd078eint, 0, 0xc169fa1c7a72fafe573e54e74e7a71b85946684c3a3b6312469b348462342cfint);
    lemma_power_step(2, 0x1000000000000000000000000000000014def9dea2f79cd65812631a5cf5d3ednat, 0x40000000000000000000000000000nat, 0xc169fa1c7a72fafe573e54e74e7a71b85946684c3a3b6312469b348462342cfint, 0, 0x5135232a14d05aee9a48fc32ad3225b32b764f06fa7f03a72564bdb0fb09c9bint);
    lemma_power_step(2, 0x1000000000000000000000000000000014def9dea2f79cd65812631a5cf5d3ednat, 0x80000000000000000000000000000nat, 0x5135232a14d05aee9a48fc32ad3225b32b764f06fa7f03a72564bdb0fb09c9bint, 0, 0x46c02b6e5959111511b91b98c8dee29ae9bfe57f3a63b50d36a930b089dabafint);
    lemma_power_step(2, 0x1000000000000000000000000000000014def9dea2f79cd65812631a5cf5d3ednat, 0x100000000000000000000000000000nat, 0x46c02b6e5959111511b91b98c8dee29ae9bfe57f3a63b50d36a930b089dabafint, 0, 0xbceaff3023c146bf3df514466da6da3e5605158651eda1a29bc07d9ba16ce79int);
    lemma_power_step(2, 0x1000000000000000000000000000000014def9dea2f79cd65812631a5cf5d3ednat, 0x200000000000000000000000000000nat, 0xbceaff3023c146bf3df514466da6da3e5605158651eda1a29bc07d9ba16ce79int, 0, 0xa0ed570263e726a82506362edefbdf6442881b907f576a3cfe2bdc5bbe25a9int);
    lemma_power_step(2, 0x1000000000000000000000000000000014def9dea2f79cd65812631a5cf5d3ednat, 0x400000000000000000000000000000nat, 0xa0ed570263e726a82506362edefbdf6442881b907f576a3cfe2bdc5bbe25a9int, 0, 0xd2b0d3d0025ef397401daea2853a6e649aba246730a14a238b8f6c2233e0448int);
    lemma_power_step(2, 0x1000000000000000000000000000000014def9dea2f79cd65812631a5cf5d3ednat, 0x800000000000000000000000000000nat, 0xd2b0d3d0025ef397401daea2853a6e649aba246730a14a238b8f6c2233e0448int, 0, 0x87e6775614b9efa6ab63a41663f2c6e489ec4dcd30d2afa0e2aefb7cd124343int);
    lemma_power_step(2, 0x1000000000000000000000000000000014def9dea2f79cd65812631a5cf5d3ednat, 0x1000000000000000000000000000000nat, 0x87e6775614b9efa6ab63a41663f2c6e489ec4dcd30d2afa0e2aefb7cd124343int, 0, 0xb7afb9568ddf8c23a1e8524acfcdc38257114bd7341a8a956051acf0080bb37int);
    lemma_power_step(2, 0x1000000000000000000000000000000014def9dea2f79cd65812631a5cf5d3ednat, 0x2000000000000000000000000000000nat, 0xb7afb9568ddf8c23a1e8524acfcdc38257114bd7341a8a956051acf0080bb37int, 0, 0x6728f76622b43ff0293993c74e63117825addf19a42f0f9cc873fe46193f7eint);
    lemma_power_step(2, 0x1000000000000000000000000000000014def9dea2f79cd65812631a5cf5d3ednat, 0x4000000000000000000000000000000nat, 0x6728f76622b43ff0293993c74e63117825addf19a42f0f9cc873fe46193f7eint, 0, 0xd0207d484044c559a474ce236a33eefac2ea7033b8da8d0032c72a044bd7a95int);
    lemma_power_step(2, 0x1000000000000000000000000000000014def9dea2f79cd65812631a5cf5d3ednat, 0x8000000000000000000000000000000nat, 0xd0207d484044c559a474ce236a33eefac2ea7033b8da8d0032c72a044bd7a95int, 0, 0xf9a14a27f7c8e2c046fc0ceb4c8b72846ec1f156e96c8794b34e3c2576ddbf6int);
    lemma_power_step(2, 0x1000000000000000000000000000000014def9dea2f79cd65812631a5cf5d3ednat, 0x10000000000000000000000000000000nat, 0xf9a14a27f7c8e2c046fc0ceb4c8b72846ec1f156e96c8794b34e3c2576ddbf6int, 0, 0x89b2b9414168d6a057dd0c5820980e07c0d9394b159320dadcec8761ca8e4a1int);
    lemma_power_step(2, 0x1000000000000000000000000000000014def9dea2f79cd65812631a5cf5d3ednat, 0x20000000000000000000000000000000nat, 0x89b2b9414168d6a057dd0c5820980e07c0d9394b159320dadcec8761ca8e4a1int, 0, 0xa8b4546b96f2b876759b1e722ca1b7754e5b68fa8d2cd62a4c90ded7f52d5b9int);
    lemma_power_step(2, 0x1000000000000000000000000000000014def9dea2f79cd65812631a5cf5d3ednat, 0x40000000000000000000000000000000nat, 0xa8b4546b96f2b876759b1e722ca1b7754e5b68fa8d2cd62a4c90ded7f52d5b9int, 0, 0xb3a0f5fe9b46ee7d23c3488f557182feb7eab6f57f9802d6ee0f450afe95ef9int);
    lemma_power_step(2, 0x1000000000000000000000000000000014def9dea2f79cd65812631a5cf5d3ednat, 0x80000000000000000000000000000000nat, 0xb3a0f5fe9b46ee7d23c3488f557182feb7eab6f57f9802d6ee0f450afe95ef9int, 1, 0x37e6a06ad916a54cd3658577a8fa50967603f0f64f1c5601f50b0c946950cc9int);
    lemma_power_step(2, 0x1000000000000000000000000000000014def9dea2f79cd65812631a5cf5d3ednat, 0x100000000000000000000000000000001nat, 0x37e6a06ad916a54cd3658577a8fa50967603f0f64f1c5601f50b0c946950cc9int, 0, 0x21ca096d32f1fd65574d713c0f5b0fc6a1eeea2e6c9856dac81b096785134d6int);
    lemma_power_step(2, 0x1000000000000000000000000000000014def9dea2f79cd65812631a5cf5d3ednat, 0x200000000000000000000000000000002nat, 0x21ca096d32f1fd65574d713c0f5b0fc6a1eeea2e6c9856dac81b096785134d6int, 1, 0xb8344df9b93ad323002ae0ce62da6ce3d665d078d35a32b97572b424b2dfd41int);
    lemma_power_step(2, 0x1000000000000000000000000000000014def9dea2f79cd65812631a5cf5d3ednat, 0x400000000000000000000000000000005nat, 0xb8344df9b93ad323002ae0ce62da6ce3d665d078d35a32b97572b424b2dfd41int, 0, 0x42f7a76422bad89640e9d9ac8a77314b8cbbe9468bb6e7692ca5cf71dfb3b5eint);
    lemma_power_step(2, 0x1000000000000000000000000000000014def9dea2f79cd65812631a5cf5d3ednat, 0x80000000000000000000000000000000anat, 0x42f7a76422bad89640e9d9ac8a77314b8cbbe9468bb6e7692ca5cf71dfb3b5eint, 0, 0x60aeaef62791cabf88fafe532841d667e4fa90d5c2e4f441ecaad68b8f94a44int);
    lemma_power_step(2, 0x1000000000000000000000000000000014def9dea2f79cd65812631a5cf5d3ednat, 0x1000000000000000000000000000000014nat, 0x60aeaef62791cabf88fafe532841d667e4fa90d5c2e4f441ecaad68b8f94a44int, 1, 0xbfd6b2a7be012fd382df3d0ce5c2614d09ba85576438082ec62bf88864e225aint);
    lemma_power_step(2, 0x1000000000000000000000000000000014def9dea2f79cd65812631a5cf5d3ednat, 0x2000000000000000000000000000000029nat, 0xbfd6b2a7be012fd382df3d0ce5c2614d09ba85576438082ec62bf88864e225aint, 1, 0xc298a152fa86afec13e7111e5e73d2ef58a47cb412fa4507f979ac43e8d8042int);
    lemma_power_step(2, 0x1000000000000000000000000000000014def9dea2f79cd65812631a5cf5d3ednat, 0x4000000000000000000000000000000053nat, 0xc298a152fa86afec13e7111e5e73d2ef58a47cb412fa4507f979ac43e8d8042int, 0, 0x139606de4992efef975d0a690e7a482037415ef23455ab44103aba9f8f9f687int);
    lemma_power_step(2, 0x1000000000000000000000000000000014def9dea2f79cd65812631a5cf5d3ednat, 0x80000000000000000000000000000000a6nat, 0x139606de4992efef975d0a690e7a482037415ef23455ab44103aba9f8f9f687int, 1, 0x8ba675aa745705328b73a8975420efdc5a3a563f1ade344d89506d55df71ffcint);
    lemma_power_step(2, 0x1000000000000000000000000000000014def9dea2f79cd65812631a5cf5d3ednat, 0x1000000000000000000000000000000014dnat, 0x8ba675aa745705328b73a8975420efdc5a3a563f1ade344d89506d55df71ffcint, 1, 0xcecbe1fc28db3ceef316c8fc4ed0990463b5e23b95a9cc5923f8de7c12501cbint);
    lemma_power_step(2, 0x1000000000000000000000000000000014def9dea2f79cd65812631a5cf5d3ednat, 0x2000000000000000000000000000000029bnat, 0xcecbe1fc28db3ceef316c8fc4ed0990463b5e23b95a9cc5923f8de7c12501cbint, 1, 0xdc6764d224b315daef5139c64c4c45e7691f8e5db5fcde8dda24010b3276cb6int);
    lemma_power_step(2, 0x1000000000000000000000000000000014def9dea2f79cd65812631a5cf5d3ednat, 0x40000000000000000000000000000000537nat, 0xdc6764d224b315daef5139c64c4c45e7691f8e5db5fcde8dda24010b3276cb6int, 1, 0xe4f2a8a03597fc4149b4bd94cd1d60a4bf345ac842c3963d3b9627d9b254864int);
    lemma_power_step(2, 0x1000000000000000000000000000000014def9dea2f79cd65812631a5cf5d3ednat, 0x80000000000000000000000000000000a6fnat, 0xe4f2a8a03597fc4149b4bd94cd1d60a4bf345ac842c3963d3b9627d9b254864int, 0, 0xafe71bc58bded66a1ddb93105f82448503578333a515aa95fb11a87e5f75c04int);
    lemma_power_step(2, 0x1000000000000000000000000000000014def9dea2f79cd65812631a5cf5d3ednat, 0x1000000000000000000000000000000014denat, 0xafe71bc58bded66a1ddb93105f82448503578333a515aa95fb11a87e5f75c04int, 1, 0x4839735a5e9a331876791fa199e05ffcaf976eb83e48667b066277518a267deint);
    lemma_power_step(2, 0x1000000000000000000000000000000014def9dea2f79cd65812631a5cf5d3ednat, 0x2000000000000000000000000000000029bdnat, 0x4839735a5e9a331876791fa199e05ffcaf976eb83e48667b066277518a267deint, 1, 0xef1d1b4a1dec9066bd331514821e553ebbd64961c16337b24cd5ee76c5f45b6int);
    lemma_power_step(2, 0x1000000000000000000000000000000014def9dea2f79cd65812631a5cf5d3ednat, 0x40000000000000000000000000000000537bnat, 0xef1d1b4a1dec9066bd331514821e553ebbd64961c16337b24cd5ee76c5f45b6int, 1, 0x1f4a2ca9de85b2c351b671e990c1a45d4e19ef1160f2bd33ac291ade2e511eeint);
}

/// A power of 2 modulo the group order.
proof fn lemma_power_20()
    ensures
        power_mod(2, 0x80000000000000000000000000000000a6f7cef517bce6b2nat, 0x1000000000000000000000000000000014def9dea2f79cd65812631a5cf5d3ednat) == 0xf403a2202c5d721cf31f6dc4bee25eef272f1f6b3e87049a6ed54a4a4f533dcint,
{
    lemma_power_19();
    lemma_power_step(2, 0x1000000000000000000000000000000014def9dea2f79cd65812631a5cf5d3ednat, 0x80000000000000000000000000000000a6f7nat, 0x1f4a2ca9de85b2c351b671e990c1a45d4e19ef1160f2bd33ac291ade2e511eeint, 1, 0x6edfa31b7db50d096c7a8401e29eb218d506a5abcd209ac7e9481c22eea3f04int);
    lemma_power_step(2, 0x1000000000000000000000000000000014def9dea2f79cd65812631a5cf5d3ednat, 0x1000000000000000000000000000000014defnat, 0x6edfa31b7db50d096c7a8401e29eb218d506a5abcd209ac7e9481c22eea3f04int, 1, 0x88337152dfe6de1311ca07bdc8ae95c0a078c3253cd0570e716e2908c0ccc1fint);
    lemma_power_step(2, 0x1000000000000000000000000000000014def9dea2f79cd65812631a5cf5d3ednat, 0x2000000000000000000000000000000029bdfnat, 0x88337152dfe6de1311ca07bdc8ae95c0a078c3253cd0570e716e2908c0ccc1fint, 0, 0x6fb0ba08f1609f86cc4981406ab1d913b8101b1195424c2c6441546ccb2707eint);
    lemma_power_step(2, 0x1000000000000000000000000000000014def9dea2f79cd65812631a5cf5d3ednat, 0x40000000000000000000000000000000537benat, 0x6fb0ba08f1609f86cc4981406ab1d913b8101b1195424c2c6441546ccb2707eint, 0, 0x5f149cb6c5beb20ba905eda74607ee8bd5642a150261ef1a2d6a84136d23d20int);
    lemma_power_step(2, 0x1000000000000000000000000000000014def9dea2f79cd65812631a5cf5d3ednat, 0x80000000000000000000000000000000a6f7cnat, 0x5f149cb6c5beb20ba905eda74607ee8bd5642a150261ef1a2d6a84136d23d20int, 1, 0xfa8b7377ff4f24022e94a5795db274ca74a67bedea50a667a8c9a96bd5a8001int);
    lemma_power_step(2, 0x1000000000000000000000000000000014def9dea2f79cd65812631a5cf5d3ednat, 0x1000000000000000000000000000000014def9nat, 0xfa8b7377ff4f24022e94a5795db274ca74a67bedea50a667a8c9a96bd5a8001int, 1, 0x70f655b4ff118967fd2fc8e87331b050af825e967bab7f8579c2d3b45a04beeint);
    lemma_power_step(2, 0x1000000000000000000000000000000014def9dea2f79cd65812631a5cf5d3ednat, 0x2000000000000000000000000000000029bdf3nat, 0x70f655b4ff118967fd2fc8e87331b050af825e967bab7f8579c2d3b45a04beeint, 1, 0x12c310519fe3de9588c1216adcb3f5e7f9b759317bb4afacd090a619b78d461int);
    lemma_power_step(2, 0x1000000000000000000000000000000014def9dea2f79cd65812631a5cf5d3ednat, 0x40000000000000000000000000000000537be7nat, 0x12c310519fe3de9588c1216adcb3f5e7f9b759317bb4afacd090a619b78d461int, 0, 0xc53124cdefe7c17c6aca2cf50b8015a70348f2bf8de5f03ab195060137cb2ccint);
    lemma_power_step(2, 0x1000000000000000000000000000000014def9dea2f79cd65812631a5cf5d3ednat, 0x80000000000000000000000000000000a6f7cenat, 0xc53124cdefe7c17c6aca2cf50b8015a70348f2bf8de5f03ab195060137cb2ccint, 1, 0x34e8d3b72e94012b3bdc0a1ae7997b10925f708aa32708186dc74ed3fef4cd8int);
    lemma_power_step(2, 0x1000000000000000000000000000000014def9dea2f79cd65812631a5cf5d3ednat, 0x1000000000000000000000000000000014def9dnat, 0x34e8d3b72e94012b3bdc0a1ae7997b10925f708aa32708186dc74ed3fef4cd8int, 1, 0xdb379e6721520d9c91741b7588f49c1cb58d5f0dc498256f247136537920181int);
    lemma_power_step(2, 0x1000000000000000000000000000000014def9dea2f79cd65812631a5cf5d3ednat, 0x2000000000000000000000000000000029bdf3bnat, 0xdb379e6721520d9c91741b7588f49c1cb58d5f0dc498256f247136537920181int, 1, 0xa8fee47c3e6d41bd9130e691b9bf8d448817ac0646a2f0e9c46759a5d826c2aint);
    lemma_power_step(2, 0x1000000000000000000000000000000014def9dea2f79cd65812631a5cf5d3ednat, 0x40000000000000000000000000000000537be77nat, 0xa8fee47c3e6d41bd9130e691b9bf8d448817ac0646a2f0e9c46759a5d826c2aint, 1, 0x5cf33756cdebc552078af59b9a889bbd0a677f18a43fd76342187ec36e2f116int);
    lemma_power_step(2, 0x1000000000000000000000000000000014def9dea2f79cd65812631a5cf5d3ednat, 0x80000000000000000000000000000000a6f7cefnat, 0x5cf33756cdebc552078af59b9a889bbd0a677f18a43fd76342187ec36e2f116int, 0, 0x631abe59a5ab098394a041643f87ead1fcac5489e69c63ccfa5345e3bc4034dint);
    lemma_power_step(2, 0x1000000000000000000000000000000014def9dea2f79cd65812631a5cf5d3ednat, 0x1000000000000000000000000000000014def9denat, 0x631abe59a5ab098394a041643f87ead1fcac5489e69c63ccfa5345e3bc4034dint, 1, 0x4e11727e7fdae0dd0f0fba00f39422f6625cae8faa9cbaacb8017c4eae453b1int);
    lemma_power_step(2, 0x1000000000000000000000000000000014def9dea2f79cd65812631a5cf5d3ednat, 0x2000000000000000000000000000000029bdf3bdnat, 0x4e11727e7fdae0dd0f0fba00f39422f6625cae8faa9cbaacb8017c4eae453b1int, 0, 0x30b0a44067fd4496c75efe77d3a0ccc85a6fca6434bee56471e5e90a1f03bb1int);
    lemma_power_step(2, 0x1000000000000000000000000000000014def9dea2f79cd65812631a5cf5d3ednat, 0x40000000000000000000000000000000537be77anat, 0x30b0a44067fd4496c75efe77d3a0ccc85a6fca6434bee56471e5e90a1f03bb1int, 1, 0x4619c76f95911ff3aa4ff17694588c9169de5ffd01555b0394962fb9e3fe5b2int);
    lemma_power_step(2, 0x1000000000000000000000000000000014def9dea2f79cd65812631a5cf5d3ednat, 0x80000000000000000000000000000000a6f7cef5nat, 0x4619c76f95911ff3aa4ff17694588c9169de5ffd01555b0394962fb9e3fe5b2int, 0, 0x2a957d477979de3f999b3dfab607d5f8bf58a6396078c0c6bcb76e74f684423int);
    lemma_power_step(2, 0x1000000000000000000000000000000014def9dea2f79cd65812631a5cf5d3ednat, 0x1000000000000000000000000000000014def9deanat, 0x2a957d477979de3f999b3dfab607d5f8bf58a6396078c0c6bcb76e74f684423int, 0, 0x2bccdc0faea55c6fa7bfe133238deec9b08aa48819cca0979ed8353947fe98fint);
    lemma_power_step(2, 0x1000000000000000000000000000000014def9dea2f79cd65812631a5cf5d3ednat, 0x2000000000000000000000000000000029bdf3bd4nat, 0x2bccdc0faea55c6fa7bfe133238deec9b08aa48819cca0979ed8353947fe98fint, 0, 0xcdf5e398030c15af0cb2c468a5b2e10cfef0d38bf3c70d57048c65aed832bffint);
    lemma_power_step(2, 0x1000000000000000000000000000000014def9dea2f79cd65812631a5cf5d3ednat, 0x40000000000000000000000000000000537be77a8nat, 0xcdf5e398030c15af0cb2c468a5b2e10cfef0d38bf3c70d57048c65aed832bffint, 1, 0x3f92418775977a208f746b189eaac314c989de00a5506324aa4d83da5b1b181int);
    lemma_power_step(2, 0x1000000000000000000000000000000014def9dea2f79cd65812631a5cf5d3ednat, 0x80000000000000000000000000000000a6f7cef51nat, 0x3f92418775977a208f746b189eaac314c989de00a5506324aa4d83da5b1b181int, 0, 0x43504ad5838b56d5fab10b41016ea5c047e0859994da0893fa5cff3ff4be7bfint);
    lemma_power_step(2, 0x1000000000000000000000000000000014def9dea2f79cd65812631a5cf5d3ednat, 0x1000000000000000000000000000000014def9dea2nat, 0x43504ad5838b56d5fab10b41016ea5c047e0859994da0893fa5cff3ff4be7bfint, 1, 0xa105956087e2b5b2aee17c865e8dd86be903ade1cb1015dd8bb650721fb048eint);
    lemma_power_step(2, 0x1000000000000000000000000000000014def9dea2f79cd65812631a5cf5d3ednat, 0x2000000000000000000000000000000029bdf3bd45nat, 0xa105956087e2b5b2aee17c865e8dd86be903ade1cb1015dd8bb650721fb048eint, 1, 0xf55ad5be03956baf3fe2ea385ba1856bc0a13498b55308b6c4cbf52746952b8int);
    lemma_power_step(2, 0x1000000000000000000000000000000014def9dea2f79cd65812631a5cf5d3ednat, 0x40000000000000000000000000000000537be77a8bnat, 0xf55ad5be03956baf3fe2ea385ba1856bc0a13498b55308b6c4cbf52746952b8int, 1, 0x97f931b18cfae376c2579f6ca26f27b5a71fa8d16f116fa21179d215257bf52int);
    lemma_power_step(2, 0x1000000000000000000000000000000014def9dea2f79cd65812631a5cf5d3ednat, 0x80000000000000000000000000000000a6f7cef517nat, 0x97f931b18cfae376c2579f6ca26f27b5a71fa8d16f116fa21179d215257bf52int, 1, 0xa801eb2b3d21d8af2a0c24ef7b82eb5e46f23b342d975d42e58835dc8a31ff0int);
    lemma_power_step(2, 0x1000000000000000000000000000000014def9dea2f79cd65812631a5cf5d3ednat, 0x1000000000000000000000000000000014def9dea2fnat, 0xa801eb2b3d21d8af2a0c24ef7b82eb5e46f23b342d975d42e58835dc8a31ff0int, 0, 0x77fd3cebd0b42f9070b4982593b9311921c76f180065ecc983b5fd6ba2df065int);
    lemma_power_step(2, 0x1000000000000000000000000000000014def9dea2f79cd65812631a5cf5d3ednat, 0x2000000000000000000000000000000029bdf3bd45enat, 0x77fd3cebd0b42f9070b4982593b9311921c76f180065ecc983b5fd6ba2df065int, 1, 0x467075e708bf4b3e4865014c1df42579b6912fedc3175c9b28d491f46718e63int);
    lemma_power_step(2, 0x1000000000000000000000000000000014def9dea2f79cd65812631a5cf5d3ednat, 0x40000000000000000000000000000000537be77a8bdnat, 0x467075e708bf4b3e4865014c1df42579b6912fedc3175c9b28d491f46718e63int, 1, 0x66de7585b7426f78b11bff6ba2394acd4b808eaf6d283412c3d6098fc4bb252int);
    lemma_power_step(2, 0x1000000000000000000000000000000014def9dea2f79cd65812631a5cf5d3ednat, 0x80000000000000000000000000000000a6f7cef517bnat, 0x66de7585b7426f78b11bff6ba2394acd4b808eaf6d283412c3d6098fc4bb252int, 1, 0x3900b3dc53d2b8fcdb06c0ef3eec783954caf9a270b6f8594b685d39eb3fd7bint);
    lemma_power_step(2, 0x1000000000000000000000000000000014def9dea2f79cd65812631a5cf5d3ednat, 0x1000000000000000000000000000000014def9dea2f7nat, 0x3900b3dc53d2b8fcdb06c0ef3eec783954caf9a270b6f8594b685d39eb3fd7bint, 1, 0x13df587c55a8c3f809767c28562a649eb8eb02df9c8e3e65126a228ad4c1b6dint);
    lemma_power_step(2, 0x1000000000000000000000000000000014def9dea2f79cd65812631a5cf5d3ednat, 0x2000000000000000000000000000000029bdf3bd45efnat, 0x13df587c55a8c3f809767c28562a649eb8eb02df9c8e3e65126a228ad4c1b6dint, 0, 0x12123e2c4692f0062257808c51698e1b8c991c8123f8c023c90af635edd51cdint);
    lemma_power_step(2, 0x1000000000000000000000000000000014def9dea2f79cd65812631a5cf5d3ednat, 0x40000000000000000000000000000000537be77a8bdenat, 0x12123e2c4692f0062257808c51698e1b8c991c8123f8c023c90af635edd51cdint, 0, 0x756aee0f2e29be7fc08041ec1fe929d45b499f25c6e17a8661dd872bb46c4b7int);
    lemma_power_step(2, 0x1000000000000000000000000000000014def9dea2f79cd65812631a5cf5d3ednat, 0x80000000000000000000000000000000a6f7cef517bcnat, 0x756aee0f2e29be7fc08041ec1fe929d45b499f25c6e17a8661dd872bb46c4b7int, 1, 0x561a6112cfb4ff36f2430f926137cc09fcb53ce2c7f5ef0e12bda4906a7f982int);
    lemma_power_step(2, 0x1000000000000000000000000000000014def9dea2f79cd65812631a5cf5d3ednat, 0x1000000000000000000000000000000014def9dea2f79nat, 0x561a6112cfb4ff36f2430f926137cc09fcb53ce2c7f5ef0e12bda4906a7f982int, 1, 0x231ca83452050c21f72988dae402df7d6619a5a97e9fd4bff7c4f76e4977ed4int);
    lemma_power_step(2, 0x1000000000000000000000000000000014def9dea2f79cd65812631a5cf5d3ednat, 0x2000000000000000000000000000000029bdf3bd45ef3nat, 0x231ca83452050c21f72988dae402df7d6619a5a97e9fd4bff7c4f76e4977ed4int, 1, 0x877bdd218d1457d257b0d69c97b8f87567483b1b2b9352ea6f074ed5746799eint);
    lemma_power_step(2, 0x1000000000000000000000000000000014def9dea2f79cd65812631a5cf5d3ednat, 0x40000000000000000000000000000000537be77a8bde7nat, 0x877bdd218d1457d257b0d69c97b8f87567483b1b2b9352ea6f074ed5746799eint, 0, 0xd720de4dc08f7d59c660539b5ab80e2010c19b57798933d3eede348cccfc54fint);
    lemma_power_step(2, 0x1000000000000000000000000000000014def9dea2f79cd65812631a5cf5d3ednat, 0x80000000000000000000000000000000a6f7cef517bcenat, 0xd720de4dc08f7d59c660539b5ab80e2010c19b57798933d3eede348cccfc54fint, 0, 0x6d265522cfd7c250714e73883f84b04168559e598b38d4d05b95a94458ab700int);
    lemma_power_step(2, 0x1000000000000000000000000000000014def9dea2f79cd65812631a5cf5d3ednat, 0x1000000000000000000000000000000014def9dea2f79cnat, 0x6d265522cfd7c250714e73883f84b04168559e598b38d4d05b95a94458ab700int, 1, 0x3fbde232812b9e8a548cbb803156b6c7b77d70b64eaf4e307e881842b725b18int);
    lemma_power_step(2, 0x1000000000000000000000000000000014def9dea2f79cd65812631a5cf5d3ednat, 0x2000000000000000000000000000000029bdf3bd45ef39nat, 0x3fbde232812b9e8a548cbb803156b6c7b77d70b64eaf4e307e881842b725b18int, 1, 0x99c28d20f8417da76990c9705e98390d68b7d8f2a21d9f544c8f92c0c014175int);
    lemma_power_step(2, 0x1000000000000000000000000000000014def9dea2f79cd65812631a5cf5d3ednat, 0x40000000000000000000000000000000537be77a8bde73nat, 0x99c28d20f8417da76990c9705e98390d68b7d8f2a21d9f544c8f92c0c014175int, 0, 0xfd9a304685a900c43bd7f2893e0df0dc762f781f04d556be314c1a9f10453baint);
    lemma_power_step(2, 0x1000000000000000000000000000000014def9dea2f79cd65812631a5cf5d3ednat, 0x80000000000000000000000000000000a6f7cef517bce6nat, 0xfd9a304685a900c43bd7f2893e0df0dc762f781f04d556be314c1a9f10453baint, 1, 0x2042efec5df60d90a9ba2ba1606fc0bdb7290801ca89d1a1524102ae61781a9int);
    lemma_power_step(2, 0x1000000000000000000000000000000014def9dea2f79cd65812631a5cf5d3ednat, 0x1000000000000000000000000000000014def9dea2f79cdnat, 0x2042efec5df60d90a9ba2ba1606fc0bdb7290801ca89d1a1524102ae61781a9int, 0, 0x19601a01b363c8b2b93d150a986b48eb7e112e7ec991f0593525bc3399df75cint);
    lemma_power_step(2, 0x1000000000000000000000000000000014def9dea2f79cd65812631a5cf5d3ednat, 0x2000000000000000000000000000000029bdf3bd45ef39anat, 0x19601a01b363c8b2b93d150a986b48eb7e112e7ec991f0593525bc3399df75cint, 1, 0xd31f6bc8fde6b51a25dac16eb12c47be125b147b4ce4804676ca95baa7318cbint);
    lemma_power_step(2, 0x1000000000000000000000000000000014def9dea2f79cd65812631a5cf5d3ednat, 0x40000000000000000000000000000000537be77a8bde735nat, 0xd31f6bc8fde6b51a25dac16eb12c47be125b147b4ce4804676ca95baa7318cbint, 1, 0xcd0557021a79b4e66626f3cb94dd9cb8e19e0f04608bf2a3ed45d00863729e1int);
    lemma_power_step(2, 0x1000000000000000000000000000000014def9dea2f79cd65812631a5cf5d3ednat, 0x80000000000000000000000000000000a6f7cef517bce6bnat, 0xcd0557021a79b4e66626f3cb94dd9cb8e19e0f04608bf2a3ed45d00863729e1int, 0, 0x8965843b7ca50c7106b35ad5036a7a42094ac4d46a97fcf3a9b2230ed82b22eint);
    lemma_power_step(2, 0x1000000000000000000000000000000014def9dea2f79cd65812631a5cf5d3ednat, 0x1000000000000000000000000000000014def9dea2f79cd6nat, 0x8965843b7ca50c7106b35ad5036a7a42094ac4d46a97fcf3a9b2230ed82b22eint, 0, 0xd7b073226c19aafb368b4fa79dbb928aefbb46834a4150eeec0319204106dfdint);
    lemma_power_step(2, 0x1000000000000000000000000000000014def9dea2f79cd65812631a5cf5d3ednat, 0x2000000000000000000000000000000029bdf3bd45ef39acnat, 0xd7b073226c19aafb368b4fa79dbb928aefbb46834a4150eeec0319204106dfdint, 1, 0x30af1db9b0555a7f8e1ca949286207f8fae1b2790e6fe1b39bda5885c4ec02bint);
    lemma_power_step(2, 0x1000000000000000000000000000000014def9dea2f79cd65812631a5cf5d3ednat, 0x40000000000000000000000000000000537be77a8bde7359nat, 0x30af1db9b0555a7f8e1ca949286207f8fae1b2790e6fe1b39bda5885c4ec02bint, 0, 0xf403a2202c5d721cf31f6dc4bee25eef272f1f6b3e87049a6ed54a4a4f533dcint);
}

/// A power of 2 modulo the group order.
proof fn lemma_power_21()
    ensures
        power_mod(2, 0x80000000000000000000000000000000a6f7cef517bce6b2c09318d2e7aenat, 0x1000000000000000000000000000000014def9dea2f79cd65812631a5cf5d3ednat) == 0x78d1ddb4611dfa8c4a494b5ca43078b2ad9c4373828e90c8c886afb44de74c9int,
{
    lemma_power_20();
    lemma_power_step(2, 0x1000000000000000000000000000000014def9dea2f79cd65812631a5cf5d3ednat, 0x80000000000000000000000000000000a6f7cef517bce6b2nat, 0xf403a2202c5d721cf31f6dc4bee25eef272f1f6b3e87049a6ed54a4a4f533dcint, 1, 0xf088aebc54e072a889562be74f841ca9455928b6df46170e965aa39c8112c0cint);
    lemma_power_step(2, 0x1000000000000000000000000000000014def9dea2f79cd65812631a5cf5d3ednat, 0x1000000000000000000000000000000014def9dea2f79cd65nat, 0xf088aebc54e072a889562be74f841ca9455928b6df46170e965aa39c8112c0cint, 1, 0xad6c1ee3f72b958e0240bf75771d9c6aa3c09457aa11327279f94ed0d61743eint);
    lemma_power_step(2, 0x1000000000000000000000000000000014def9dea2f79cd65812631a5cf5d3ednat, 0x2000000000000000000000000000000029bdf3bd45ef39acbnat, 0xad6c1ee3f72b958e0240bf75771d9c6aa3c09457aa11327279f94ed0d61743eint, 0, 0x4628d38d225bbfb0bbe3ed12f51900f83d606e8ab372ac63268a51872ee5caint);
    lemma_power_step(2, 0x1000000000000000000000000000000014def9dea2f79cd65812631a5cf5d3ednat, 0x40000000000000000000000000000000537be77a8bde73596nat, 0x4628d38d225bbfb0bbe3ed12f51900f83d606e8ab372ac63268a51872ee5caint, 0, 0x8f63ee9f84906b2a8b41789232cc7fa83eeb8e7c2cc2f69a33f70da639ede30int);
    lemma_power_step(2, 0x1000000000000000000000000000000014def9dea2f79cd65812631a5cf5d3ednat, 0x80000000000000000000000000000000a6f7cef517bce6b2cnat, 0x8f63ee9f84906b2a8b41789232cc7fa83eeb8e7c2cc2f69a33f70da639ede30int, 0, 0x441278b40aa804a4441cfbeaee0ea458b13207659f50f59088acab02157047aint);
    lemma_power_step(2, 0x1000000000000000000000000000000014def9dea2f79cd65812631a5cf5d3ednat, 0x1000000000000000000000000000000014def9dea2f79cd658nat, 0x441278b40aa804a4441cfbeaee0ea458b13207659f50f59088acab02157047aint, 0, 0x6caa5673a4807b9be30c7b21bcb78234228f93300b9f408075a8e0022d9b707int);
    lemma_power_step(2, 0x1000000000000000000000000000000014def9dea2f79cd65812631a5cf5d3ednat, 0x2000000000000000000000000000000029bdf3bd45ef39acb0nat, 0x6caa5673a4807b9be30c7b21bcb78234228f93300b9f408075a8e0022d9b707int, 0, 0xd766556d47cd23601700b0e664aefad58047cfdd18394e743989f0c77e7e4dbint);
    lemma_power_step(2, 0x1000000000000000000000000000000014def9dea2f79cd65812631a5cf5d3ednat, 0x40000000000000000000000000000000537be77a8bde735960nat, 0xd766556d47cd23601700b0e664aefad58047cfdd18394e743989f0c77e7e4dbint, 0, 0x3acffe1f0a148bb1eb4d5b60fb7a55e11b5b42ab397d1b65fc2d69a8d8f55bcint);
    lemma_power_step(2, 0x1000000000000000000000000000000014def9dea2f79cd65812631a5cf5d3ednat, 0x80000000000000000000000000000000a6f7cef517bce6b2c0nat, 0x3acffe1f0a148bb1eb4d5b60fb7a55e11b5b42ab397d1b65fc2d69a8d8f55bcint, 1, 0x1892e28b62766d757c5f19df6a8d3dbd00e67cbbfa0568ae4f9b6463a243138int);
    lemma_power_step(2, 0x1000000000000000000000000000000014def9dea2f79cd65812631a5cf5d3ednat, 0x1000000000000000000000000000000014def9dea2f79cd6581nat, 0x1892e28b62766d757c5f19df6a8d3dbd00e67cbbfa0568ae4f9b6463a243138int, 0, 0x18c601e7fb198873aee5889aa94c38d441b51f358bfd9d119c14516d173e4aint);
    lemma_power_step(2, 0x1000000000000000000000000000000014def9dea2f79cd65812631a5cf5d3ednat, 0x2000000000000000000000000000000029bdf3bd45ef39acb02nat, 0x18c601e7fb198873aee5889aa94c38d441b51f358bfd9d119c14516d173e4aint, 0, 0xef031f099339ca363dcc7653de0ac8117c27dc40052e217f74664e520c81367int);
    lemma_power_step(2, 0x1000000000000000000000000000000014def9dea2f79cd65812631a5cf5d3ednat, 0x40000000000000000000000000000000537be77a8bde7359604nat, 0xef031f099339ca363dcc7653de0ac8117c27dc40052e217f74664e520c81367int, 1, 0x7db472354d6dd585e917ee797bf02647081b5c216855676db1661f8cbfaeee3int);
    lemma_power_step(2, 0x1000000000000000000000000000000014def9dea2f79cd65812631a5cf5d3ednat, 0x80000000000000000000000000000000a6f7cef517bce6b2c09nat, 0x7db472354d6dd585e917ee797bf02647081b5c216855676db1661f8cbfaeee3int, 0, 0x6124f1f90d9c2c12ef226af215020bbdd04c9c88f50a4ebb1766f6993a458e4int);
    lemma_power_step(2, 0x1000000000000000000000000000000014def9dea2f79cd65812631a5cf5d3ednat, 0x1000000000000000000000000000000014def9dea2f79cd65812nat, 0x6124f1f90d9c2c12ef226af215020bbdd04c9c88f50a4ebb1766f6993a458e4int, 0, 0x7b51dbf11b2f34b4c8199d7c43f72a936cb44da2f2e7d84c5fa882d45b189d4int);
    lemma_power_step(2, 0x1000000000000000000000000000000014def9dea2f79cd65812631a5cf5d3ednat, 0x2000000000000000000000000000000029bdf3bd45ef39acb024nat, 0x7b51dbf11b2f34b4c8199d7c43f72a936cb44da2f2e7d84c5fa882d45b189d4int, 1, 0xaf2695fe51d320b6e3764a4fda285bde4b30a7bd4e7bcff332d320bff65636dint);
    lemma_power_step(2, 0x1000000000000000000000000000000014def9dea2f79cd65812631a5cf5d3ednat, 0x40000000000000000000000000000000537be77a8bde73596049nat, 0xaf2695fe51d320b6e3764a4fda285bde4b30a7bd4e7bcff332d320bff65636dint, 1, 0xcd66cf1bbf5269869175137000dac25dc350338ce391eb0b263fcc591664373int);
    lemma_power_step(2, 0x1000000000000000000000000000000014def9dea2f79cd65812631a5cf5d3ednat, 0x80000000000000000000000000000000a6f7cef517bce6b2c093nat, 0xcd66cf1bbf5269869175137000dac25dc350338ce391eb0b263fcc591664373int, 0, 0x45288ccfbb32bc5776668355618812e0aa6a9500ea3f8131951b49d3fc7fedfint);
    lemma_power_step(2, 0x1000000000000000000000000000000014def9dea2f79cd65812631a5cf5d3ednat, 0x1000000000000000000000000000000014def9dea2f79cd658126nat, 0x45288ccfbb32bc5776668355618812e0aa6a9500ea3f8131951b49d3fc7fedfint, 0, 0xe4a020fe93dd88b5074228acd2833d65bccb2fbb2de9acb4b04b75f9a5ce54cint);
    lemma_power_step(2, 0x1000000000000000000000000000000014def9dea2f79cd65812631a5cf5d3ednat, 0x2000000000000000000000000000000029bdf3bd45ef39acb024cnat, 0xe4a020fe93dd88b5074228acd2833d65bccb2fbb2de9acb4b04b75f9a5ce54cint, 0, 0x345636e7d3c78a498427a70ea7030cbe5fe59d8e687acc87bcf7a5cee9d516aint);
    lemma_power_step(2, 0x1000000000000000000000000000000014def9dea2f79cd65812631a5cf5d3ednat, 0x40000000000000000000000000000000537be77a8bde735960498nat, 0x345636e7d3c78a498427a70ea7030cbe5fe59d8e687acc87bcf7a5cee9d516aint, 1, 0x2cb342c8ecce5acad1630fa5900d5f7ba77d13d10b23603adb6909aa07d83bfint);
    lemma_power_step(2, 0x1000000000000000000000000000000014def9dea2f79cd65812631a5cf5d3ednat, 0x80000000000000000000000000000000a6f7cef517bce6b2c0931nat, 0x2cb342c8ecce5acad1630fa5900d5f7ba77d13d10b23603adb6909aa07d83bfint, 1, 0x55f64b6cc8a14190fda9436e791b74458698f9968c3310e48ba1f873c5cde13int);
    lemma_power_step(2, 0x1000000000000000000000000000000014def9dea2f79cd65812631a5cf5d3ednat, 0x1000000000000000000000000000000014def9dea2f79cd6581263nat, 0x55f64b6cc8a14190fda9436e791b74458698f9968c3310e48ba1f873c5cde13int, 0, 0x117f31a58c35b71d49795631c88a7a61652ac735aa16cda913a4b04040041e9int);
    lemma_power_step(2, 0x1000000000000000000000000000000014def9dea2f79cd65812631a5cf5d3ednat, 0x2000000000000000000000000000000029bdf3bd45ef39acb024c6nat, 0x117f31a58c35b71d49795631c88a7a61652ac735aa16cda913a4b04040041e9int, 0, 0xd619a0198093b103522cbd44252fb5dccd67a559cd25ae43bb7aebbe407d6e8int);
    lemma_power_step(2, 0x1000000000000000000000000000000014def9dea2f79cd65812631a5cf5d3ednat, 0x40000000000000000000000000000000537be77a8bde735960498cnat, 0xd619a0198093b103522cbd44252fb5dccd67a559cd25ae43bb7aebbe407d6e8int, 0, 0x5e455421ec25fd318098cf977f4aeee66d835d812e909cd41b32bbcbea9bd05int);
    lemma_power_step(2, 0x1000000000000000000000000000000014def9dea2f79cd65812631a5cf5d3ednat, 0x80000000000000000000000000000000a6f7cef517bce6b2c09318nat, 0x5e455421ec25fd318098cf977f4aeee66d835d812e909cd41b32bbcbea9bd05int, 1, 0xaa9607604406e05790ec1ac762125f8ae1e76d537ee3877499f80606234e18eint);
    lemma_power_step(2, 0x1000000000000000000000000000000014def9dea2f79cd65812631a5cf5d3ednat, 0x1000000000000000000000000000000014def9dea2f79cd65812631nat, 0xaa9607604406e05790ec1ac762125f8ae1e76d537ee3877499f80606234e18eint, 1, 0x6bcd527a5c5e26ea46625c725065f99f231acc931857db2e1411e80bb885dd2int);
    lemma_power_step(2, 0x1000000000000000000000000000000014def9dea2f79cd65812631a5cf5d3ednat, 0x2000000000000000000000000000000029bdf3bd45ef39acb024c63nat, 0x6bcd527a5c5e26ea46625c725065f99f231acc931857db2e1411e80bb885dd2int, 0, 0xd4e62415c1eccf87e05be503ad8724984f5c5d75c7110a235f055fbc840585fint);
    lemma_power_step(2, 0x1000000000000000000000000000000014def9dea2f79cd65812631a5cf5d3ednat, 0x40000000000000000000000000000000537be77a8bde735960498c6nat, 0xd4e62415c1eccf87e05be503ad8724984f5c5d75c7110a235f055fbc840585fint, 1, 0xb8a51e9f0f315d92685f1679a96d27b9c4d5b338ba3ca6a4320fc3bf2d2cbcbint);
    lemma_power_step(2, 0x1000000000000000000000000000000014def9dea2f79cd65812631a5cf5d3ednat, 0x80000000000000000000000000000000a6f7cef517bce6b2c09318dnat, 0xb8a51e9f0f315d92685f1679a96d27b9c4d5b338ba3ca6a4320fc3bf2d2cbcbint, 0, 0x79eac773f9b01cf9f429f91eb2caa0b3f920c91e83e847b4b77e83130116922int);
    lemma_power_step(2, 0x1000000000000000000000000000000014def9dea2f79cd65812631a5cf5d3ednat, 0x1000000000000000000000000000000014def9dea2f79cd65812631anat, 0x79eac773f9b01cf9f429f91eb2caa0b3f920c91e83e847b4b77e83130116922int, 0, 0x3d1bb5d2bf318c50d18b88cae029f79d4a49f2742fa8d1576d28b46bca32074int);
    lemma_power_step(2, 0x1000000000000000000000000000000014def9dea2f79cd65812631a5cf5d3ednat, 0x2000000000000000000000000000000029bdf3bd45ef39acb024c634nat, 0x3d1bb5d2bf318c50d18b88cae029f79d4a49f2742fa8d1576d28b46bca32074int, 1, 0x215a04252a8dcb627c4826b145902e262e4a851a31508984109380f84646f64int);
    lemma_power_step(2, 0x1000000000000000000000000000000014def9dea2f79cd65812631a5cf5d3ednat, 0x40000000000000000000000000000000537be77a8bde735960498c69nat, 0x215a04252a8dcb627c4826b145902e262e4a851a31508984109380f84646f64int, 0, 0x30ce303c0d81249bdaad88386815573749166fcfc476ab24d5a660f7ffbf116int);
    lemma_power_step(2, 0x1000000000000000000000000000000014def9dea2f79cd65812631a5cf5d3ednat, 0x80000000000000000000000000000000a6f7cef517bce6b2c09318d2nat, 0x30ce303c0d81249bdaad88386815573749166fcfc476ab24d5a660f7ffbf116int, 1, 0x73b89c2d1b0848cabf2ab2632021f5cdbdb8c59b7744bffb74a0fc8d8d362int);
    lemma_power_step(2, 0x1000000000000000000000000000000014def9dea2f79cd65812631a5cf5d3ednat, 0x1000000000000000000000000000000014def9dea2f79cd65812631a5nat, 0x73b89c2d1b0848cabf2ab2632021f5cdbdb8c59b7744bffb74a0fc8d8d362int, 1, 0x2751af85697d67a2f7cbf262bde81566af210746d02c2d376796f21bc600f08int);
    lemma_power_step(2, 0x1000000000000000000000000000000014def9dea2f79cd65812631a5cf5d3ednat, 0x2000000000000000000000000000000029bdf3bd45ef39acb024c634bnat, 0x2751af85697d67a2f7cbf262bde81566af210746d02c2d376796f21bc600f08int, 1, 0xdc45fa486fe69867174ed77714968efdef54d74149ff457001234690d0882a9int);
    lemma_power_step(2, 0x1000000000000000000000000000000014def9dea2f79cd65812631a5cf5d3ednat, 0x40000000000000000000000000000000537be77a8bde735960498c697nat, 0xdc45fa486fe69867174ed77714968efdef54d74149ff457001234690d0882a9int, 0, 0xefa5d9055f7c6e54b083fce40292bd69527c347c331c9422ee8c7715151182int);
    lemma_power_step(2, 0x1000000000000000000000000000000014def9dea2f79cd65812631a5cf5d3ednat, 0x80000000000000000000000000000000a6f7cef517bce6b2c09318d2enat, 0xefa5d9055f7c6e54b083fce40292bd69527c347c331c9422ee8c7715151182int, 0, 0x5016977ec15ae931521dc6ff27d4f6dacb945f5c041d3c4e78b3ceb5ae443d2int);
    lemma_power_step(2, 0x1000000000000000000000000000000014def9dea2f79cd65812631a5cf5d3ednat, 0x1000000000000000000000000000000014def9dea2f79cd65812631a5cnat, 0x5016977ec15ae931521dc6ff27d4f6dacb945f5c041d3c4e78b3ceb5ae443d2int, 1, 0x909f9526b5a7f9b56ef5cc08d05824cffac32a1d2ea54ed0c4409b62e8f4ae0int);
    lemma_power_step(2, 0x1000000000000000000000000000000014def9dea2f79cd65812631a5cf5d3ednat, 0x2000000000000000000000000000000029bdf3bd45ef39acb024c634b9nat, 0x909f9526b5a7f9b56ef5cc08d05824cffac32a1d2ea54ed0c4409b62e8f4ae0int, 1, 0x7d84d1c1389c5bbc374180bb5f88e8e3c79be4cf6cde0047f1ebe7249dcf82bint);
    lemma_power_step(2, 0x1000000000000000000000000000000014def9dea2f79cd65812631a5cf5d3ednat, 0x40000000000000000000000000000000537be77a8bde735960498c6973nat, 0x7d84d1c1389c5bbc374180bb5f88e8e3c79be4cf6cde0047f1ebe7249dcf82bint, 1, 0xf6ae39d2187628a651b1e9bab7bb9c03b650c8d3044dbb73dbbcc8cb23fb6e8int);
    lemma_power_step(2, 0x1000000000000000000000000000000014def9dea2f79cd65812631a5cf5d3ednat, 0x80000000000000000000000000000000a6f7cef517bce6b2c09318d2e7nat, 0xf6ae39d2187628a651b1e9bab7bb9c03b650c8d3044dbb73dbbcc8cb23fb6e8int, 1, 0xf6f918f6f632c9cfde152f478a274529f296487fd7cb6fb61fec6fcb416347cint);
    lemma_power_step(2, 0x1000000000000000000000000000000014def9dea2f79cd65812631a5cf5d3ednat, 0x1000000000000000000000000000000014def9dea2f79cd65812631a5cfnat, 0xf6f918f6f632c9cfde152f478a274529f296487fd7cb6fb61fec6fcb416347cint, 0, 0xd5188f2144a5f2d7def6df073a12d20a1d75359aa5f8cbe23dffb207a05d5b3int);
    lemma_power_step(2, 0x1000000000000000000000000000000014def9dea2f79cd65812631a5cf5d3ednat, 0x2000000000000000000000000000000029bdf3bd45ef39acb024c634b9enat, 0xd5188f2144a5f2d7def6df073a12d20a1d75359aa5f8cbe23dffb207a05d5b3int, 1, 0x12bbf57ed87dcce666ebdf8e6da8fcb9df8bbf1fba14f41cd46e3fba979ee71int);
    lemma_power_step(2, 0x1000000000000000000000000000000014def9dea2f79cd65812631a5cf5d3ednat, 0x40000000000000000000000000000000537be77a8bde735960498c6973dnat, 0x12bbf57ed87dcce666ebdf8e6da8fcb9df8bbf1fba14f41cd46e3fba979ee71int, 0, 0x48c979938c8acbf5cf07986dadbaed746e0f0e65613f611fc3ccc7d3636615bint);
    lemma_power_step(2, 0x1000000000000000000000000000000014def9dea2f79cd65812631a5cf5d3ednat, 0x80000000000000000000000000000000a6f7cef517bce6b2c09318d2e7anat, 0x48c979938c8acbf5cf07986dadbaed746e0f0e65613f611fc3ccc7d3636615bint, 1, 0x12870b97c3648b518cc037d62df289c6428f8920be87214812590a1a41114a3int);
    lemma_power_step(2, 0x1000000000000000000000000000000014def9dea2f79cd65812631a5cf5d3ednat, 0x1000000000000000000000000000000014def9dea2f79cd65812631a5cf5nat, 0x12870b97c3648b518cc037d62df289c6428f8920be87214812590a1a41114a3int, 1, 0x6f5f709d888ce9758cd2aa3b0befcac26bf2407fed1ad6c8ec0b8f5f840b320int);
    lemma_power_step(2, 0x1000000000000000000000000000000014def9dea2f79cd65812631a5cf5d3ednat, 0x2000000000000000000000000000000029bdf3bd45ef39acb024c634b9ebnat, 0x6f5f709d888ce9758cd2aa3b0befcac26bf2407fed1ad6c8ec0b8f5f840b320int, 1, 0xdc78b441d859c4beb725fe05c77cc21c353f779f5f0a051e84394e553c12fe5int);
    lemma_power_step(2, 0x1000000000000000000000000000000014def9dea2f79cd65812631a5cf5d3ednat, 0x40000000000000000000000000000000537be77a8bde735960498c6973d7nat, 0xdc78b441d859c4beb725fe05c77cc21c353f779f5f0a051e84394e553c12fe5int, 0, 0x78d1ddb4611dfa8c4a494b5ca43078b2ad9c4373828e90c8c886afb44de74c9int);
}

/// A power of 2 modulo the group order.
proof fn lemma_power_22()
    ensures
        power_mod(2, 0x1000000000000000000000000000000014def9dea2f79cd65812631a5cf5d3ecnat, 0x1000000000000000000000000000000014def9dea2f79cd65812631a5cf5d3ednat) == 1,
{
    lemma_power_21();
    lemma_power_step(2, 0x1000000000000000000000000000000014def9dea2f79cd65812631a5cf5d3ednat, 0x80000000000000000000000000000000a6f7cef517bce6b2c09318d2e7aenat, 0x78d1ddb4611dfa8c4a494b5ca43078b2ad9c4373828e90c8c886afb44de74c9int, 1, 0x16ee1c56acd6e08dc8540ab202f2c008c81dd68fb1ee35b531279a62a6e7cffint);
    lemma_power_step(2, 0x1000000000000000000000000000000014def9dea2f79cd65812631a5cf5d3ednat, 0x1000000000000000000000000000000014def9dea2f79cd65812631a5cf5dnat, 0x16ee1c56acd6e08dc8540ab202f2c008c81dd68fb1ee35b531279a62a6e7cffint, 0, 0x447ac9768f2713e9b488e2aa2843ea5e7fecd1ca73f47a3add348b7d07f7564int);
    lemma_power_step(2, 0x1000000000000000000000000000000014def9dea2f79cd65812631a5cf5d3ednat, 0x2000000000000000000000000000000029bdf3bd45ef39acb024c634b9ebanat, 0x447ac9768f2713e9b488e2aa2843ea5e7fecd1ca73f47a3add348b7d07f7564int, 0, 0x8900a81265ce6b645b3e8764077e8a1510df84d00b6455491ee588892c31299int);
    lemma_power_step(2, 0x1000000000000000000000000000000014def9dea2f79cd65812631a5cf5d3ednat, 0x40000000000000000000000000000000537be77a8bde735960498c6973d74nat, 0x8900a81265ce6b645b3e8764077e8a1510df84d00b6455491ee588892c31299int, 1, 0xa424e2830e1d1fcb993b8bbaacea490f0e58a6b4ef52e93d3ae1c5d17bf1fb3int);
    lemma_power_step(2, 0x1000000000000000000000000000000014def9dea2f79cd65812631a5cf5d3ednat, 0x80000000000000000000000000000000a6f7cef517bce6b2c09318d2e7ae9nat, 0xa424e2830e1d1fcb993b8bbaacea490f0e58a6b4ef52e93d3ae1c5d17bf1fb3int, 1, 0x4847178168bc62f4b69678ac015c8930b2a616543e600bf9712ed20cf477b47int);
    lemma_power_step(2, 0x1000000000000000000000000000000014def9dea2f79cd65812631a5cf5d3ednat, 0x1000000000000000000000000000000014def9dea2f79cd65812631a5cf5d3nat, 0x4847178168bc62f4b69678ac015c8930b2a616543e600bf9712ed20cf477b47int, 1, 0x2075b7305403122fad014985741bd71d75d7c464aac2c779b4fca8e92830b57int);
    lemma_power_step(2, 0x1000000000000000000000000000000014def9dea2f79cd65812631a5cf5d3ednat, 0x2000000000000000000000000000000029bdf3bd45ef39acb024c634b9eba7nat, 0x2075b7305403122fad014985741bd71d75d7c464aac2c779b4fca8e92830b57int, 1, 0xd64becd609be067567030e524925d327fd458381dfc02aa42a749bfdda2a1edint);
    lemma_power_step(2, 0x1000000000000000000000000000000014def9dea2f79cd65812631a5cf5d3ednat, 0x40000000000000000000000000000000537be77a8bde735960498c6973d74fnat, 0xd64becd609be067567030e524925d327fd458381dfc02aa42a749bfdda2a1edint, 1, 0xc97650dd7f3d09fa9ccebe218db84c810394f125d502466a4f13ee607e9c4daint);
    lemma_power_step(2, 0x1000000000000000000000000000000014def9dea2f79cd65812631a5cf5d3ednat, 0x80000000000000000000000000000000a6f7cef517bce6b2c09318d2e7ae9fnat, 0xc97650dd7f3d09fa9ccebe218db84c810394f125d502466a4f13ee607e9c4daint, 0, 0x93b07239fa73ed24520f4d8eefa1bbc045550e69d4d593e5823b739fca45cceint);
    lemma_power_step(2, 0x1000000000000000000000000000000014def9dea2f79cd65812631a5cf5d3ednat, 0x1000000000000000000000000000000014def9dea2f79cd65812631a5cf5d3enat, 0x93b07239fa73ed24520f4d8eefa1bbc045550e69d4d593e5823b739fca45cceint, 1, 0x35ac6778fc33f0c4161494faa1f1ec302f751c5b0148c6bccc5769d389be60cint);
    lemma_power_step(2, 0x1000000000000000000000000000000014def9dea2f79cd65812631a5cf5d3ednat, 0x2000000000000000000000000000000029bdf3bd45ef39acb024c634b9eba7dnat, 0x35ac6778fc33f0c4161494faa1f1ec302f751c5b0148c6bccc5769d389be60cint, 1, 0x94a7310e07981e77d3d6d60abc1c27a0ef0565342ce83febe8775dfebbe07d4int);
    lemma_power_step(2, 0x1000000000000000000000000000000014def9dea2f79cd65812631a5cf5d3ednat, 0x40000000000000000000000000000000537be77a8bde735960498c6973d74fbnat, 0x94a7310e07981e77d3d6d60abc1c27a0ef0565342ce83febe8775dfebbe07d4int, 0, 0x1000000000000000000000000000000014def9dea2f79cd65812631a5cf5d3ecint);
    lemma_power_step(2, 0x1000000000000000000000000000000014def9dea2f79cd65812631a5cf5d3ednat, 0x80000000000000000000000000000000a6f7cef517bce6b2c09318d2e7ae9f6nat, 0x1000000000000000000000000000000014def9dea2f79cd65812631a5cf5d3ecint, 0, 1);
}

/// A power of 2 modulo the group order.
proof fn lemma_power_23()
    ensures
        power_mod(2, 0xa13f5e3af8e7nat, 0x1000000000000000000000000000000014def9dea2f79cd65812631a5cf5d3ednat) == 0x4d35bb753ce5fbd18ccc2d94866ac9a7cdda9d0707e5cb854254bf73346143dint,
{
    lemma_power_zero(2, 0x1000000000000000000000000000000014def9dea2f79cd65812631a5cf5d3ednat);
    lemma_power_step(2, 0x1000000000000000000000000000000014def9dea2f79cd65812631a5cf5d3ednat, 0, 1, 1, 2);
    lemma_power_step(2, 0x1000000000000000000000000000000014def9dea2f79cd65812631a5cf5d3ednat, 1, 2, 0, 4);
    lemma_power_step(2, 0x1000000000000000000000000000000014def9dea2f79cd65812631a5cf5d3ednat, 2, 4, 1, 32);
    lemma_power_step(2, 0x1000000000000000000000000000000014def9dea2f79cd65812631a5cf5d3ednat, 5, 32, 0, 1024);
    lemma_power_step(2, 0x1000000000000000000000000000000014def9dea2f79cd65812631a5cf5d3ednat, 10, 1024, 0, 1048576);
    lemma_power_step(2, 0x1000000000000000000000000000000014def9dea2f79cd65812631a5cf5d3ednat, 20, 1048576, 0, 0x10000000000int);
    lemma_power_step(2, 0x1000000000000000000000000000000014def9dea2f79cd65812631a5cf5d3ednat, 40, 0x10000000000int, 0, 0x100000000000000000000int);
    lemma_power_step(2, 0x1000000000000000000000000000000014def9dea2f79cd65812631a5cf5d3ednat, 80, 0x100000000000000000000int, 1, 0x20000000000000000000000000000000000000000int);
    lemma_power_step(2, 0x1000000000000000000000000000000014def9dea2f79cd65812631a5cf5d3ednat, 161, 0x20000000000000000000000000000000000000000int, 0, 0xffffffffffffffac84188574218ca6a104633476582a1965812631a5cf5d3edint);
    lemma_power_step(2, 0x1000000000000000000000000000000014def9dea2f79cd65812631a5cf5d3ednat, 322, 0xffffffffffffffac84188574218ca6a104633476582a1965812631a5cf5d3edint, 0, 0x5c63aa97a331b4f2ee573e5a6e5f719ecb8f9626c082fa86e644cdb318e7211int);
    lemma_power_step(2, 0x1000000000000000000000000000000014def9dea2f79cd65812631a5cf5d3ednat, 644, 0x5c63aa97a331b4f2ee573e5a6e5f719ecb8f9626c082fa86e644cdb318e7211int, 1, 0x8e1d0f0049f716290b33a2cada2072c66d0d50cfedf8c650e2acdc746d8a762int);
    lemma_power_step(2, 0x1000000000000000000000000000000014def9dea2f79cd65812631a5cf5d3ednat, 1289, 0x8e1d0f0049f716290b33a2cada2072c66d0d50cfedf8c650e2acdc746d8a762int, 1, 0xd2a0adb4135b353a1c9aa09648a85fc310157c8af679e497f2cbf26f2ab8ebfint);
    lemma_power_step(2, 0x1000000000000000000000000000000014def9dea2f79cd65812631a5cf5d3ednat, 2579, 0xd2a0adb4135b353a1c9aa09648a85fc310157c8af679e497f2cbf26f2ab8ebfint, 1, 0x3bbe549ab78e8e3117b7444214e37bdd8dc187db4bd81ceed36c45621e72ddint);
    lemma_power_step(2, 0x1000000000000000000000000000000014def9dea2f79cd65812631a5cf5d3ednat, 5159, 0x3bbe549ab78e8e3117b7444214e37bdd8dc187db4bd81ceed36c45621e72ddint, 1, 0xaac529bb3700655c9acc44f3c173e027279cfa1e666454790bf319fad87ae36int);
    lemma_power_step(2, 0x1000000000000000000000000000000014def9dea2f79cd65812631a5cf5d3ednat, 10319, 0xaac529bb3700655c9acc44f3c173e027279cfa1e666454790bf319fad87ae36int, 1, 0x86d818be2df9c0fcbb65bdd50547d29268dc895dded7d19093adf32ffa8eaf8int);
    lemma_power_step(2, 0x1000000000000000000000000000000014def9dea2f79cd65812631a5cf5d3ednat, 20639, 0x86d818be2df9c0fcbb65bdd50547d29268dc895dded7d19093adf32ffa8eaf8int, 1, 0x212c404871948938e03fd7f80a1dd31151c9112352c79c219f22f1af140abecint);
    lemma_power_step(2, 0x1000000000000000000000000000000014def9dea2f79cd65812631a5cf5d3ednat, 41279, 0x212c404871948938e03fd7f80a1dd31151c9112352c79c219f22f1af140abecint, 0, 0x27447e933d93ba08e1f3f51e3404a7a4d1b5b3d87fb920538510a58b89cd0ddint);
    lemma_power_step(2, 0x1000000000000000000000000000000014def9dea2f79cd65812631a5cf5d3ednat, 82558, 0x27447e933d93ba08e1f3f51e3404a7a4d1b5b3d87fb920538510a58b89cd0ddint, 1, 0x7f6ea649a8a2c3d9dae1d05f2588773a21ed46c4aef87c6ba4091e6c405cb6eint);
    lemma_power_step(2, 0x1000000000000000000000000000000014def9dea2f79cd65812631a5cf5d3ednat, 165117, 0x7f6ea649a8a2c3d9dae1d05f2588773a21ed46c4aef87c6ba4091e6c405cb6eint, 0, 0xfc10bad906aad05ddfac7bd4142cfaeb56af42717c26d40fdf9d1c8ec688bb8int);
    lemma_power_step(2, 0x1000000000000000000000000000000014def9dea2f79cd65812631a5cf5d3ednat, 330234, 0xfc10bad906aad05ddfac7bd4142cfaeb56af42717c26d40fdf9d1c8ec688bb8int, 1, 0x93c76cb5589ce0b826af4036a171689b577933c0847dfe9dfde52745bc62b9fint);
    lemma_power_step(2, 0x1000000000000000000000000000000014def9dea2f79cd65812631a5cf5d3ednat, 660469, 0x93c76cb5589ce0b826af4036a171689b577933c0847dfe9dfde52745bc62b9fint, 1, 0xaa6aafb946e98172f60c437b1b94496a3e6356fc4f4184e7d85470d2ebe85ebint);
    lemma_power_step(2, 0x1000000000000000000000000000000014def9dea2f79cd65812631a5cf5d3ednat, 1320939, 0xaa6aafb946e98172f60c437b1b94496a3e6356fc4f4184e7d85470d2ebe85ebint, 1, 0x5b9d09daa54ff9bf7ca922fd9c00577874f636b63c17c55ac2d0ae42c8a5a6fint);
    lemma_power_step(2, 0x1000000000000000000000000000000014def9dea2f79cd65812631a5cf5d3ednat, 2641879, 0x5b9d09daa54ff9bf7ca922fd9c00577874f636b63c17c55ac2d0ae42c8a5a6fint, 1, 0xd3326110c3b9ed2cf83a06f5692cf1be8bc3fda23e250633b6999cb6d5ca701int);
    lemma_power_step(2, 0x1000000000000000000000000000000014def9dea2f79cd65812631a5cf5d3ednat, 5283759, 0xd3326110c3b9ed2cf83a06f5692cf1be8bc3fda23e250633b6999cb6d5ca701int, 0, 0x29989be0889c77df9358db0e80d1c7b869da95b3f7876afb94344e3e6c0ee4aint);
    lemma_power_step(2, 0x1000000000000000000000000000000014def9dea2f79cd65812631a5cf5d3ednat, 10567518, 0x29989be0889c77df9358db0e80d1c7b869da95b3f7876afb94344e3e6c0ee4aint, 0, 0x83ced19e9a108d831bc0747768636293fcc7a6a33e76384f7f957d55ef2134fint);
    lemma_power_step(2, 0x1000000000000000000000000000000014def9dea2f79cd65812631a5cf5d3ednat, 21135036, 0x83ced19e9a108d831bc0747768636293fcc7a6a33e76384f7f957d55ef2134fint, 0, 0x72705d2133b780a540003362d73dc21a7f5bab01597219e1c428a3e14b81120int);
    lemma_power_step(2, 0x1000000000000000000000000000000014def9dea2f79cd65812631a5cf5d3ednat, 42270072, 0x72705d2133b780a540003362d73dc21a7f5bab01597219e1c428a3e14b81120int, 1, 0xcff02c64ec79d0281f11dbdbffd7ee1c8593e317547a31f934902fd6345787cint);
    lemma_power_step(2, 0x1000000000000000000000000000000014def9dea2f79cd65812631a5cf5d3ednat, 84540145, 0xcff02c64ec79d0281f11dbdbffd7ee1c8593e317547a31f934902fd6345787cint, 1, 0x326c32069878580257007fae1d8b7943e7bd19738e3e15df94df54ee8a790faint);
    lemma_power_step(2, 0x1000000000000000000000000000000014def9dea2f79cd65812631a5cf5d3ednat, 169080291, 0x326c32069878580257007fae1d8b7943e7bd19738e3e15df94df54ee8a790faint, 1, 0x4b0330a6fa5ca3bc77859e134df65177e6d069edd10643f54492333e0cd4317int);
    lemma_power_step(2, 0x1000000000000000000000000000000014def9dea2f79cd65812631a5cf5d3ednat, 338160583, 0x4b0330a6fa5ca3bc77859e134df65177e6d069edd10643f54492333e0cd4317int, 0, 0x11ab7f8415162fb3a0af6886d095793f2a9d5bb0e85b528baaa325a82d68336int);
    lemma_power_step(2, 0x1000000000000000000000000000000014def9dea2f79cd65812631a5cf5d3ednat, 676321166, 0x11ab7f8415162fb3a0af6886d095793f2a9d5bb0e85b528baaa325a82d68336int, 1, 0x284dc2fe78b178c75f67d9179fc62dafe213b2106a205fae8826f9f37f9e884int);
    lemma_power_step(2, 0x1000000000000000000000000000000014def9dea2f79cd65812631a5cf5d3ednat, 0x509faf1dnat, 0x284dc2fe78b178c75f67d9179fc62dafe213b2106a205fae8826f9f37f9e884int, 0, 0x32dddcbcea18c70f9ce86627a2654166eef0356b9c0f2ee406d136bad98de76int);
    lemma_power_step(2, 0x1000000000000000000000000000000014def9dea2f79cd65812631a5cf5d3ednat, 0xa13f5e3anat, 0x32dddcbcea18c70f9ce86627a2654166eef0356b9c0f2ee406d136bad98de76int, 1, 0xe81c8bdea81d930c22664bddd78a7e8bee1d6d0540cce2adbf0990b928b1271int);
    lemma_power_step(2, 0x1000000000000000000000000000000014def9dea2f79cd65812631a5cf5d3ednat, 0x1427ebc75nat, 0xe81c8bdea81d930c22664bddd78a7e8bee1d6d0540cce2adbf0990b928b1271int, 1, 0x9fb19bcac2ec75b460b60d08d47f6466957aea35efbe2cb6844b4dc6f9126a6int);
    lemma_power_step(2, 0x1000000000000000000000000000000014def9dea2f79cd65812631a5cf5d3ednat, 0x284fd78ebnat, 0x9fb19bcac2ec75b460b60d08d47f6466957aea35efbe2cb6844b4dc6f9126a6int, 1, 0x35138bee705b2a1fd0f844f863246426297124467985c54c6809cd61262e598int);
    lemma_power_step(2, 0x1000000000000000000000000000000014def9dea2f79cd65812631a5cf5d3ednat, 0x509faf1d7nat, 0x35138bee705b2a1fd0f844f863246426297124467985c54c6809cd61262e598int, 1, 0x815ccd1b45e7ad43bfcbead9b646699420117dd4974067dff8d4adc4ae06b8bint);
    lemma_power_step(2, 0x1000000000000000000000000000000014def9dea2f79cd65812631a5cf5d3ednat, 0xa13f5e3afnat, 0x815ccd1b45e7ad43bfcbead9b646699420117dd4974067dff8d4adc4ae06b8bint, 1, 0xab93290de356f5d731c08626b2abe1af4e8e06bda15156e617d7092015cccf6int);
    lemma_power_step(2, 0x1000000000000000000000000000000014def9dea2f79cd65812631a5cf5d3ednat, 0x1427ebc75fnat, 0xab93290de356f5d731c08626b2abe1af4e8e06bda15156e617d7092015cccf6int, 0, 0xdaa331e5c84c44fd0cb27b2b40f3f62d2111468f53528fe1ae690f1b94b8118int);
    lemma_power_step(2, 0x1000000000000000000000000000000014def9dea2f79cd65812631a5cf5d3ednat, 0x284fd78ebenat, 0xdaa331e5c84c44fd0cb27b2b40f3f62d2111468f53528fe1ae690f1b94b8118int, 0, 0x78222d417ed00f5378f9d686b4571b96deb35c2a8ff34ced14ff96905c67988int);
    lemma_power_step(2, 0x1000000000000000000000000000000014def9dea2f79cd65812631a5cf5d3ednat, 0x509faf1d7cnat, 0x78222d417ed00f5378f9d686b4571b96deb35c2a8ff34ced14ff96905c67988int, 0, 0x222857545a1bf9708a4a4e1faa8d2a70eb094fe35c2eb7d5fd28b34f327e01fint);
    lemma_power_step(2, 0x1000000000000000000000000000000014def9dea2f79cd65812631a5cf5d3ednat, 0xa13f5e3af8nat, 0x222857545a1bf9708a4a4e1faa8d2a70eb094fe35c2eb7d5fd28b34f327e01fint, 1, 0xc9536bbe874d0925c9e8c3fd65a1023db1e146a1fe7f1e1f28ce7f35262108eint);
    lemma_power_step(2, 0x1000000000000000000000000000000014def9dea2f79cd65812631a5cf5d3ednat, 0x1427ebc75f1nat, 0xc9536bbe874d0925c9e8c3fd65a1023db1e146a1fe7f1e1f28ce7f35262108eint, 1, 0xb320e8a774f45463a94c4673679f7d41dd1d37eb6aac26f5a3ee670bab66de0int);
    lemma_power_step(2, 0x1000000000000000000000000000000014def9dea2f79cd65812631a5cf5d3ednat, 0x284fd78ebe3nat, 0xb320e8a774f45463a94c4673679f7d41dd1d37eb6aac26f5a3ee670bab66de0int, 1, 0x776c3b602626c490691221fde46683124be49f53ad00f037735c45dcbd0de73int);
    lemma_power_step(2, 0x1000000000000000000000000000000014def9dea2f79cd65812631a5cf5d3ednat, 0x509faf1d7c7nat, 0x776c3b602626c490691221fde46683124be49f53ad00f037735c45dcbd0de73int, 0, 0xf6adc8f9aa298daea57370e99c28675cb113f38510d9a1981622e2a553474aint);
    lemma_power_step(2, 0x1000000000000000000000000000000014def9dea2f79cd65812631a5cf5d3ednat, 0xa13f5e3af8enat, 0xf6adc8f9aa298daea57370e99c28675cb113f38510d9a1981622e2a553474aint, 0, 0x3972484110b0017b37b87f1d298dfcc2512686bab79eb2dbce93dc20626be20int);
    lemma_power_step(2, 0x1000000000000000000000000000000014def9dea2f79cd65812631a5cf5d3ednat, 0x1427ebc75f1cnat, 0x3972484110b0017b37b87f1d298dfcc2512686bab79eb2dbce93dc20626be20int, 1, 0xf6ce7bc4cdc736993e6e77d931912f969b04337bf6366ff9a94d3d058564994int);
    lemma_power_step(2, 0x1000000000000000000000000000000014def9dea2f79cd65812631a5cf5d3ednat, 0x284fd78ebe39nat, 0xf6ce7bc4cdc736993e6e77d931912f969b04337bf6366ff9a94d3d058564994int, 1, 0xda8f441e2b443cc229f9e5483e9e42ce6c874237bd467a93b95271e8a5f91a7int);
    lemma_power_step(2, 0x1000000000000000000000000000000014def9dea2f79cd65812631a5cf5d3ednat, 0x509faf1d7c73nat, 0xda8f441e2b443cc229f9e5483e9e42ce6c874237bd467a93b95271e8a5f91a7int, 1, 0x4d35bb753ce5fbd18ccc2d94866ac9a7cdda9d0707e5cb854254bf73346143dint);
}

/// A power of 2 modulo the group order.
proof fn lemma_power_24()
    ensures
        power_mod(2, 0xa13f5e3af8e798eed0474691nat, 0x1000000000000000000000000000000014def9dea2f79cd65812631a5cf5d3ednat) == 0x721e3d82e8c93a58783f3b336d41c234b385541adff2dd7e0fa00982335c2d0int,
{
    lemma_power_23();
    lemma_power_step(2, 0x1000000000000000000000000000000014def9dea2f79cd65812631a5cf5d3ednat, 0xa13f5e3af8e7nat, 0x4d35bb753ce5fbd18ccc2d94866ac9a7cdda9d0707e5cb854254bf73346143dint, 1, 0x6611bdf39439dfea489b75cb8e6ff5b8563928778761f9f15e0f1d998886862int);
    lemma_power_step(2, 0x1000000000000000000000000000000014def9dea2f79cd65812631a5cf5d3ednat, 0x1427ebc75f1cfnat, 0x6611bdf39439dfea489b75cb8e6ff5b8563928778761f9f15e0f1d998886862int, 0, 0xb6063860ff988b69531ca44ffd9f96cef8fab4357031d0aa40ecdb267a1e2acint);
    lemma_power_step(2, 0x1000000000000000000000000000000014def9dea2f79cd65812631a5cf5d3ednat, 0x284fd78ebe39enat, 0xb6063860ff988b69531ca44ffd9f96cef8fab4357031d0aa40ecdb267a1e2acint, 0, 0xa7c8609c140b7a87645c00d42e4ae0140403f0b56211baedb4d5728822cc748int);
    lemma_power_step(2, 0x1000000000000000000000000000000014def9dea2f79cd65812631a5cf5d3ednat, 0x509faf1d7c73cnat, 0xa7c8609c140b7a87645c00d42e4ae0140403f0b56211baedb4d5728822cc748int, 1, 0x272da830a9d902e320d9f1b79d929317cdb77f178d91ecb4e64e8d770ad1857int);
    lemma_power_step(2, 0x1000000000000000000000000000000014def9dea2f79cd65812631a5cf5d3ednat, 0xa13f5e3af8e79nat, 0x272da830a9d902e320d9f1b79d929317cdb77f178d91ecb4e64e8d770ad1857int, 1, 0xd35d9346c52078ec393d86ece06351d1af494ef80e05349f31ff7bf4577a34dint);
    lemma_power_step(2, 0x1000000000000000000000000000000014def9dea2f79cd65812631a5cf5d3ednat, 0x1427ebc75f1cf3nat, 0xd35d9346c52078ec393d86ece06351d1af494ef80e05349f31ff7bf4577a34dint, 0, 0xc52752d39245f982ddc07bce513cb51541943600c4f9b10eb8881d7ec0310a5int);
    lemma_power_step(2, 0x1000000000000000000000000000000014def9dea2f79cd65812631a5cf5d3ednat, 0x284fd78ebe39e6nat, 0xc52752d39245f982ddc07bce513cb51541943600c4f9b10eb8881d7ec0310a5int, 0, 0x2a53279f8297a3fef7d6c5c47ee575c100a167b15138e61d007e48ff1468a86int);
    lemma_power_step(2, 0x1000000000000000000000000000000014def9dea2f79cd65812631a5cf5d3ednat, 0x509faf1d7c73ccnat, 0x2a53279f8297a3fef7d6c5c47ee575c100a167b15138e61d007e48ff1468a86int, 0, 0xddf647f7aa644b7c2e373f647917b95f1ceb2031e660d3b51404a324a8b6c80int);
    lemma_power_step(2, 0x1000000000000000000000000000000014def9dea2f79cd65812631a5cf5d3ednat, 0xa13f5e3af8e798nat, 0xddf647f7aa644b7c2e373f647917b95f1ceb2031e660d3b51404a324a8b6c80int, 1, 0x81ffc40476dbb56b0031eee5c627b22b06040a213f9b5ead70e7c4b29b26b96int);
    lemma_power_step(2, 0x1000000000000000000000000000000014def9dea2f79cd65812631a5cf5d3ednat, 0x1427ebc75f1cf31nat, 0x81ffc40476dbb56b0031eee5c627b22b06040a213f9b5ead70e7c4b29b26b96int, 1, 0xaafd490f78836920468350174343f1d40db470cce2359d6399a857de077ec6eint);
    lemma_power_step(2, 0x1000000000000000000000000000000014def9dea2f79cd65812631a5cf5d3ednat, 0x284fd78ebe39e63nat, 0xaafd490f78836920468350174343f1d40db470cce2359d6399a857de077ec6eint, 1, 0xc80eab45fc2fb3103941419dc16fb1c150e58b6c4a5c760d0f6f829de377de3int);
    lemma_power_step(2, 0x1000000000000000000000000000000014def9dea2f79cd65812631a5cf5d3ednat, 0x509faf1d7c73cc7nat, 0xc80eab45fc2fb3103941419dc16fb1c150e58b6c4a5c760d0f6f829de377de3int, 0, 0x972fc87067cd75e63f482c082860eadac1f65192ecb5ec421c8ed3d2ddc222int);
    lemma_power_step(2, 0x1000000000000000000000000000000014def9dea2f79cd65812631a5cf5d3ednat, 0xa13f5e3af8e798enat, 0x972fc87067cd75e63f482c082860eadac1f65192ecb5ec421c8ed3d2ddc222int, 1, 0x414700c436a5f2bb9a0040b1a231a3160459e92fb6821a74cb5807dc1818601int);
    lemma_power_step(2, 0x1000000000000000000000000000000014def9dea2f79cd65812631a5cf5d3ednat, 0x1427ebc75f1cf31dnat, 0x414700c436a5f2bb9a0040b1a231a3160459e92fb6821a74cb5807dc1818601int, 1, 0x4ff69c2f3a67561249b0d8692a8c4679eb01db369874dad2d413063de1e09f7int);
    lemma_power_step(2, 0x1000000000000000000000000000000014def9dea2f79cd65812631a5cf5d3ednat, 0x284fd78ebe39e63bnat, 0x4ff69c2f3a67561249b0d8692a8c4679eb01db369874dad2d413063de1e09f7int, 1, 0x627465a5b4f35ef29fd6e991b6a3085b70485010001643ae306d5d84a422914int);
    lemma_power_step(2, 0x1000000000000000000000000000000014def9dea2f79cd65812631a5cf5d3ednat, 0x509faf1d7c73cc77nat, 0x627465a5b4f35ef29fd6e991b6a3085b70485010001643ae306d5d84a422914int, 0, 0xede65f1db4371683da10bd66d0dc4a94c1fda4172aef346e766e95348c62ec3int);
    lemma_power_step(2, 0x1000000000000000000000000000000014def9dea2f79cd65812631a5cf5d3ednat, 0xa13f5e3af8e798eenat, 0xede65f1db4371683da10bd66d0dc4a94c1fda4172aef346e766e95348c62ec3int, 1, 0xa66d2d6ce135942014c3c400a45fc2f93d538a6f9680afc07cac1c187e99c9fint);
    lemma_power_step(2, 0x1000000000000000000000000000000014def9dea2f79cd65812631a5cf5d3ednat, 0x1427ebc75f1cf31ddnat, 0xa66d2d6ce135942014c3c400a45fc2f93d538a6f9680afc07cac1c187e99c9fint, 1, 0x61c317551be86527bdd6361f9e74601da1df6ae6bed44e033386b4727e6f24dint);
    lemma_power_step(2, 0x1000000000000000000000000000000014def9dea2f79cd65812631a5cf5d3ednat, 0x284fd78ebe39e63bbnat, 0x61c317551be86527bdd6361f9e74601da1df6ae6bed44e033386b4727e6f24dint, 0, 0xcafae15f16a4be7a9ce2dcaf72c63550f7a2fc9b58a9822e01969bbf508193fint);
    lemma_power_step(2, 0x1000000000000000000000000000000014def9dea2f79cd65812631a5cf5d3ednat, 0x509faf1d7c73cc776nat, 0xcafae15f16a4be7a9ce2dcaf72c63550f7a2fc9b58a9822e01969bbf508193fint, 1, 0x8a69e5802a314ec91bef7de507973439ff675d15d6599c81c079add1f07e587int);
    lemma_power_step(2, 0x1000000000000000000000000000000014def9dea2f79cd65812631a5cf5d3ednat, 0xa13f5e3af8e798eednat, 0x8a69e5802a314ec91bef7de507973439ff675d15d6599c81c079add1f07e587int, 0, 0x7378916e55ec56d87eaf68b522656c844ce9b5cb9e57e0033cb635e5fae7960int);
    lemma_power_step(2, 0x1000000000000000000000000000000014def9dea2f79cd65812631a5cf5d3ednat, 0x1427ebc75f1cf31ddanat, 0x7378916e55ec56d87eaf68b522656c844ce9b5cb9e57e0033cb635e5fae7960int, 0, 0xe92c2793057fa7976be0974cfa6c515fb645f0d15ada066f92a8f6d3f4a8cf7int);
    lemma_power_step(2, 0x1000000000000000000000000000000014def9dea2f79cd65812631a5cf5d3ednat, 0x284fd78ebe39e63bb4nat, 0xe92c2793057fa7976be0974cfa6c515fb645f0d15ada066f92a8f6d3f4a8cf7int, 0, 0x1a4cff3d4dcf275200ec38f583b282e01def447a1b231b4f3c43e736f3e0d67int);
    lemma_power_step(2, 0x1000000000000000000000000000000014def9dea2f79cd65812631a5cf5d3ednat, 0x509faf1d7c73cc7768nat, 0x1a4cff3d4dcf275200ec38f583b282e01def447a1b231b4f3c43e736f3e0d67int, 0, 0x7bb78861ccae5a8b2c8d25c0ec1f750a42f16f23255c3c056ae83a5cdc2f83aint);
    lemma_power_step(2, 0x1000000000000000000000000000000014def9dea2f79cd65812631a5cf5d3ednat, 0xa13f5e3af8e798eed0nat, 0x7bb78861ccae5a8b2c8d25c0ec1f750a42f16f23255c3c056ae83a5cdc2f83aint, 0, 0x66eb3c861e9d22475f2b58eaa1b1fe08ef79c5b7d328a295c68ce22478d18dcint);
    lemma_power_step(2, 0x1000000000000000000000000000000014def9dea2f79cd65812631a5cf5d3ednat, 0x1427ebc75f1cf31dda0nat, 0x66eb3c861e9d22475f2b58eaa1b1fe08ef79c5b7d328a295c68ce22478d18dcint, 1, 0x7e60244d8e4fc0c8b183ac7e519662154328c3872bf183001b1525ece51dba2int);
    lemma_power_step(2, 0x1000000000000000000000000000000014def9dea2f79cd65812631a5cf5d3ednat, 0x284fd78ebe39e63bb41nat, 0x7e60244d8e4fc0c8b183ac7e519662154328c3872bf183001b1525ece51dba2int, 0, 0x3d41ac5669e834026c1e29f9acae928d6ffeffb710b1718a9195b345121736dint);
    lemma_power_step(2, 0x1000000000000000000000000000000014def9dea2f79cd65812631a5cf5d3ednat, 0x509faf1d7c73cc77682nat, 0x3d41ac5669e834026c1e29f9acae928d6ffeffb710b1718a9195b345121736dint, 0, 0x25a29c08a18d680fa085dea4c7098c492a17b58c69c712c09ea97242903fb4aint);
    lemma_power_step(2, 0x1000000000000000000000000000000014def9dea2f79cd65812631a5cf5d3ednat, 0xa13f5e3af8e798eed04nat, 0x25a29c08a18d680fa085dea4c7098c492a17b58c69c712c09ea97242903fb4aint, 0, 0xf88392aef066bccf8721f338d8c69e1e93f62fd5ab25bc4cd200ee92b55423bint);
    lemma_power_step(2, 0x1000000000000000000000000000000014def9dea2f79cd65812631a5cf5d3ednat, 0x1427ebc75f1cf31dda08nat, 0xf88392aef066bccf8721f338d8c69e1e93f62fd5ab25bc4cd200ee92b55423bint, 1, 0x2fb41778595f8cd4e6815568b009cd1213001341c49777d5df6bbc04dd682b2int);
    lemma_power_step(2, 0x1000000000000000000000000000000014def9dea2f79cd65812631a5cf5d3ednat, 0x284fd78ebe39e63bb411nat, 0x2fb41778595f8cd4e6815568b009cd1213001341c49777d5df6bbc04dd682b2int, 1, 0x6b9db0157a1695716fc6d68496ba6e13f5be7c7c792e6cd0a40ea2d49bf54f6int);
    lemma_power_step(2, 0x1000000000000000000000000000000014def9dea2f79cd65812631a5cf5d3ednat, 0x509faf1d7c73cc776823nat, 0x6b9db0157a1695716fc6d68496ba6e13f5be7c7c792e6cd0a40ea2d49bf54f6int, 1, 0x2fb156a30ca48941b5692bfc671e95546374a25d338194f518aeed91a55cde4int);
    lemma_power_step(2, 0x1000000000000000000000000000000014def9dea2f79cd65812631a5cf5d3ednat, 0xa13f5e3af8e798eed047nat, 0x2fb156a30ca48941b5692bfc671e95546374a25d338194f518aeed91a55cde4int, 0, 0xe44b44704986bcf41b45f6acd7c59f2d431e56708581e92c5763afafb752c41int);
    lemma_power_step(2, 0x1000000000000000000000000000000014def9dea2f79cd65812631a5cf5d3ednat, 0x1427ebc75f1cf31dda08enat, 0xe44b44704986bcf41b45f6acd7c59f2d431e56708581e92c5763afafb752c41int, 1, 0xa2decbc426e91653c188fc5ebfac73e4f22c78a8271df0b41698830e2d383e2int);
    lemma_power_step(2, 0x1000000000000000000000000000000014def9dea2f79cd65812631a5cf5d3ednat, 0x284fd78ebe39e63bb411dnat, 0xa2decbc426e91653c188fc5ebfac73e4f22c78a8271df0b41698830e2d383e2int, 0, 0x1c2b69cc4b5c2e491778cb0f37f800a42fe9c454070ad9120d4a9383db941d9int);
    lemma_power_step(2, 0x1000000000000000000000000000000014def9dea2f79cd65812631a5cf5d3ednat, 0x509faf1d7c73cc776823anat, 0x1c2b69cc4b5c2e491778cb0f37f800a42fe9c454070ad9120d4a9383db941d9int, 0, 0xdb207854fc0de4b86e635a15eabb1b47ac568349b38b6893e75eda26532c3aaint);
    lemma_power_step(2, 0x1000000000000000000000000000000014def9dea2f79cd65812631a5cf5d3ednat, 0xa13f5e3af8e798eed0474nat, 0xdb207854fc0de4b86e635a15eabb1b47ac568349b38b6893e75eda26532c3aaint, 0, 0x454a8ee3dd1c2bf3007d19144a0b337938f1ce29bcfa25109c386555883b82bint);
    lemma_power_step(2, 0x1000000000000000000000000000000014def9dea2f79cd65812631a5cf5d3ednat, 0x1427ebc75f1cf31dda08e8nat, 0x454a8ee3dd1c2bf3007d19144a0b337938f1ce29bcfa25109c386555883b82bint, 1, 0x8b99eaa8d9b81ff710cd2eb299132bc4f4f92381c7fd1e6913051af5493e081int);
    lemma_power_step(2, 0x1000000000000000000000000000000014def9dea2f79cd65812631a5cf5d3ednat, 0x284fd78ebe39e63bb411d1nat, 0x8b99eaa8d9b81ff710cd2eb299132bc4f4f92381c7fd1e6913051af5493e081int, 1, 0xe7116a18d5c918d871e9e3bcf125b75d2d0e4d5e17c0f04fda4c31078723b8dint);
    lemma_power_step(2, 0x1000000000000000000000000000000014def9dea2f79cd65812631a5cf5d3ednat, 0x509faf1d7c73cc776823a3nat, 0xe7116a18d5c918d871e9e3bcf125b75d2d0e4d5e17c0f04fda4c31078723b8dint, 0, 0xf2fd968c04d6bad23f77805a913072bae6ece63a89b41ab725547582b5a5aacint);
    lemma_power_step(2, 0x1000000000000000000000000000000014def9dea2f79cd65812631a5cf5d3ednat, 0xa13f5e3af8e798eed04746nat, 0xf2fd968c04d6bad23f77805a913072bae6ece63a89b41ab725547582b5a5aacint, 1, 0x82986605bdb40a78df6c349dfce2867863ddb7f350604ec6bdfd20a0c3c2091int);
    lemma_power_step(2, 0x1000000000000000000000000000000014def9dea2f79cd65812631a5cf5d3ednat, 0x1427ebc75f1cf31dda08e8dnat, 0x82986605bdb40a78df6c349dfce2867863ddb7f350604ec6bdfd20a0c3c2091int, 0, 0x68a59efe03c6b4f63ce4bdde1a56bd8aa6d3058e40e57c0e9077335937e5337int);
    lemma_power_step(2, 0x1000000000000000000000000000000014def9dea2f79cd65812631a5cf5d3ednat, 0x284fd78ebe39e63bb411d1anat, 0x68a59efe03c6b4f63ce4bdde1a56bd8aa6d3058e40e57c0e9077335937e5337int, 0, 0x87e93f02ef22fe029f4028a904954055642d6a640d07fc9fca9daec16347fafint);
    lemma_power_step(2, 0x1000000000000000000000000000000014def9dea2f79cd65812631a5cf5d3ednat, 0x509faf1d7c73cc776823a34nat, 0x87e93f02ef22fe029f4028a904954055642d6a640d07fc9fca9daec16347fafint, 1, 0xf84f9097a5ea9106cbb16d69be9dd8bca7ae0588f217b71499c66a8635c2a93int);
    lemma_power_step(2, 0x1000000000000000000000000000000014def9dea2f79cd65812631a5cf5d3ednat, 0xa13f5e3af8e798eed047469nat, 0xf84f9097a5ea9106cbb16d69be9dd8bca7ae0588f217b71499c66a8635c2a93int, 0, 0x2f267c6bb5c1f618ebe897ad2aab0538a68f57ed4e69b8089a852b941a7fbcaint);
    lemma_power_step(2, 0x1000000000000000000000000000000014def9dea2f79cd65812631a5cf5d3ednat, 0x1427ebc75f1cf31dda08e8d2nat, 0x2f267c6bb5c1f618ebe897ad2aab0538a68f57ed4e69b8089a852b941a7fbcaint, 0, 0xe17a9acf4358c2b110761609ff2a1e108907d9c82c3d1d6db2b531977354238int);
    lemma_power_step(2, 0x1000000000000000000000000000000014def9dea2f79cd65812631a5cf5d3ednat, 0x284fd78ebe39e63bb411d1a4nat, 0xe17a9acf4358c2b110761609ff2a1e108907d9c82c3d1d6db2b531977354238int, 0, 0x6507169e1b8cde52ddb2539e39fb2697fb63b4cd8e26b49aa0a0f11762d7f16int);
    lemma_power_step(2, 0x1000000000000000000000000000000014def9dea2f79cd65812631a5cf5d3ednat, 0x509faf1d7c73cc776823a348nat, 0x6507169e1b8cde52ddb2539e39fb2697fb63b4cd8e26b49aa0a0f11762d7f16int, 1, 0x721e3d82e8c93a58783f3b336d41c234b385541adff2dd7e0fa00982335c2d0int);
}

/// A power of 2 modulo the group order.
proof fn lemma_power_25()
    ensures
        power_mod(2, 0x509faf1d7c73cc776823a348caa44nat, 0x1000000000000000000000000000000014def9dea2f79cd65812631a5cf5d3ednat) == 0x6941747825185c74c21c65c0572a638494435ae0b3ba38e09b97aa8d26faec1int,
{
    lemma_power_24();
    lemma_power_step(2, 0x1000000000000000000000000000000014def9dea2f79cd65812631a5cf5d3ednat, 0xa13f5e3af8e798eed0474691nat, 0x721e3d82e8c93a58783f3b336d41c234b385541adff2dd7e0fa00982335c2d0int, 1, 0x61efc949d6b8dc83265e80e046bb343abb4e47fcd13c79ea143310cf637070cint);
    lemma_power_step(2, 0x1000000000000000000000000000000014def9dea2f79cd65812631a5cf5d3ednat, 0x1427ebc75f1cf31dda08e8d23nat, 0x61efc949d6b8dc83265e80e046bb343abb4e47fcd13c79ea143310cf637070cint, 0, 0xcfad109edbfcf21fdb29c2cea6a8b7188da7fc3c564dc5f9894d376663336e1int);
    lemma_power_step(2, 0x1000000000000000000000000000000014def9dea2f79cd65812631a5cf5d3ednat, 0x284fd78ebe39e63bb411d1a46nat, 0xcfad109edbfcf21fdb29c2cea6a8b7188da7fc3c564dc5f9894d376663336e1int, 0, 0x1887adb4ba8c206054e63011f9f9a7b3aef2ebc4dc26606704ad0bfc914be4int);
    lemma_power_step(2, 0x1000000000000000000000000000000014def9dea2f79cd65812631a5cf5d3ednat, 0x509faf1d7c73cc776823a348cnat, 0x1887adb4ba8c206054e63011f9f9a7b3aef2ebc4dc26606704ad0bfc914be4int, 1, 0x2b15253452b56a59c9cbcb0f48a9a810cf49b89c89f5056de2d8f6ccb6b126dint);
    lemma_power_step(2, 0x1000000000000000000000000000000014def9dea2f79cd65812631a5cf5d3ednat, 0xa13f5e3af8e798eed04746919nat, 0x2b15253452b56a59c9cbcb0f48a9a810cf49b89c89f5056de2d8f6ccb6b126dint, 0, 0x271f86fca1bac0e05e3dab2679049dba2c4fdc65ae8f4beefb03b632942c63int);
    lemma_power_step(2, 0x1000000000000000000000000000000014def9dea2f79cd65812631a5cf5d3ednat, 0x1427ebc75f1cf31dda08e8d232nat, 0x271f86fca1bac0e05e3dab2679049dba2c4fdc65ae8f4beefb03b632942c63int, 1, 0x7b747f40fe37cdd74fe5490691c5d87095ade16077c76ac7f052e303c3d0b06int);
    lemma_power_step(2, 0x1000000000000000000000000000000014def9dea2f79cd65812631a5cf5d3ednat, 0x284fd78ebe39e63bb411d1a465nat, 0x7b747f40fe37cdd74fe5490691c5d87095ade16077c76ac7f052e303c3d0b06int, 0, 0x6da1db8430cb1b95bad4ae9d0cf4a1d57564ef336dda2e6a75cd90566c7d6adint);
    lemma_power_step(2, 0x1000000000000000000000000000000014def9dea2f79cd65812631a5cf5d3ednat, 0x509faf1d7c73cc776823a348canat, 0x6da1db8430cb1b95bad4ae9d0cf4a1d57564ef336dda2e6a75cd90566c7d6adint, 1, 0x805cc1dcd9b0c329026f43bc0d1d424efad883cd3fe53daec3e300bd2825bint);
    lemma_power_step(2, 0x1000000000000000000000000000000014def9dea2f79cd65812631a5cf5d3ednat, 0xa13f5e3af8e798eed047469195nat, 0x805cc1dcd9b0c329026f43bc0d1d424efad883cd3fe53daec3e300bd2825bint, 0, 0x4b00e911c50e805323ce1547e1000dddb3e7865c578efce4a8938295295cdaint);
    lemma_power_step(2, 0x1000000000000000000000000000000014def9dea2f79cd65812631a5cf5d3ednat, 0x1427ebc75f1cf31dda08e8d232anat, 0x4b00e911c50e805323ce1547e1000dddb3e7865c578efce4a8938295295cdaint, 1, 0xe4da13f3c3ec45ac3110fd25c175c915bc20a7cafb5af2de6c011cdcec71956int);
    lemma_power_step(2, 0x1000000000000000000000000000000014def9dea2f79cd65812631a5cf5d3ednat, 0x284fd78ebe39e63bb411d1a4655nat, 0xe4da13f3c3ec45ac3110fd25c175c915bc20a7cafb5af2de6c011cdcec71956int, 0, 0xb572aba64c5a77b0cbad0b93da696f02255a6fbdfc5976c941fce7b74811256int);
    lemma_power_step(2, 0x1000000000000000000000000000000014def9dea2f79cd65812631a5cf5d3ednat, 0x509faf1d7c73cc776823a348caanat, 0xb572aba64c5a77b0cbad0b93da696f02255a6fbdfc5976c941fce7b74811256int, 0, 0xc10ae3e2007ae99f8ef952b4a96ad156c030b81f8c8960f5d07e4f8ae37bd4aint);
    lemma_power_step(2, 0x1000000000000000000000000000000014def9dea2f79cd65812631a5cf5d3ednat, 0xa13f5e3af8e798eed0474691954nat, 0xc10ae3e2007ae99f8ef952b4a96ad156c030b81f8c8960f5d07e4f8ae37bd4aint, 1, 0x95e4657ed50ebc6dc6872781566b8278165f7a135d5ca82228a501663231322int);
    lemma_power_step(2, 0x1000000000000000000000000000000014def9dea2f79cd65812631a5cf5d3ednat, 0x1427ebc75f1cf31dda08e8d232a9nat, 0x95e4657ed50ebc6dc6872781566b8278165f7a135d5ca82228a501663231322int, 0, 0x6a62847b2904372d82297c2dece248e8a8cf588443d5bc96cc04e4ec176de65int);
    lemma_power_step(2, 0x1000000000000000000000000000000014def9dea2f79cd65812631a5cf5d3ednat, 0x284fd78ebe39e63bb411d1a46552nat, 0x6a62847b2904372d82297c2dece248e8a8cf588443d5bc96cc04e4ec176de65int, 0, 0x7e0bc1d1059fc9fd46a6495ef4aca855a37bf4a7c402024242e8a1c94fbb423int);
    lemma_power_step(2, 0x1000000000000000000000000000000014def9dea2f79cd65812631a5cf5d3ednat, 0x509faf1d7c73cc776823a348caa4nat, 0x7e0bc1d1059fc9fd46a6495ef4aca855a37bf4a7c402024242e8a1c94fbb423int, 0, 0x725e9ec64365975c66ac9f8426dfbc2c1e079866cfdb92024ec7cf1de5e969fint);
    lemma_power_step(2, 0x1000000000000000000000000000000014def9dea2f79cd65812631a5cf5d3ednat, 0xa13f5e3af8e798eed04746919548nat, 0x725e9ec64365975c66ac9f8426dfbc2c1e079866cfdb92024ec7cf1de5e969fint, 1, 0xcf2326741c68cdd072b5c6e3b5db2bc6f01f526073951c123e8558ebee0fc6int);
    lemma_power_step(2, 0x1000000000000000000000000000000014def9dea2f79cd65812631a5cf5d3ednat, 0x1427ebc75f1cf31dda08e8d232a91nat, 0xcf2326741c68cdd072b5c6e3b5db2bc6f01f526073951c123e8558ebee0fc6int, 0, 0x8469e8c4743fbf8527aec691d21f17f68f2b7a664c9b5b10c3f372eb1a1d31fint);
    lemma_power_step(2, 0x1000000000000000000000000000000014def9dea2f79cd65812631a5cf5d3ednat, 0x284fd78ebe39e63bb411d1a465522nat, 0x8469e8c4743fbf8527aec691d21f17f68f2b7a664c9b5b10c3f372eb1a1d31fint, 0, 0x6941747825185c74c21c65c0572a638494435ae0b3ba38e09b97aa8d26faec1int);
}

/// The group order `p` is prime: `q =
/// 276602624281642239937218680557139826668747` is a prime above the square
/// root of `p` that divides `p - 1`, 2 to the power `p - 1` is one modulo `p`,
/// and 2 to the power `(p - 1) / q`, less one, has an inverse modulo `p`.
pub proof fn lemma_group_order_prime()
    ensures
        is_prime(group_order()),
{
    lemma_prime_276602624281642239937218680557139826668747();
    lemma_power_22();
    lemma_power_25();
    lemma_criterion_large_factor(0x1000000000000000000000000000000014def9dea2f79cd65812631a5cf5d3ednat, 2, 0x32cdcafae152df290ed9fa9b80caa8174cbnat, 0x6941747825185c74c21c65c0572a638494435ae0b3ba38e09b97aa8d26faec1nat, 0x4f00a20dc254447a5cb50de6926ccd209ebc28f00f1664a7d2f3930fbe411aenat);
}

} // verus!
