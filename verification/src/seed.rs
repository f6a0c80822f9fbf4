//! Seeds of the derived addresses of an order: the text `escrow-` for the
//! authority, `token-seed-` for the vault, each followed by the order code in
//! decimal, as bytes.

use vstd::prelude::*;

verus! {

/// The decimal digits of `n` as ASCII bytes, most significant first, without
/// leading zeros (`0` is the single digit `0`).
pub open spec fn decimal(n: nat) -> Seq<u8>
    decreases n,
{
    if n < 10 {
        seq![(48 + n) as u8]
    } else {
        decimal(n / 10).push((48 + n % 10) as u8)
    }
}

/// The bytes of the text `escrow-`.
pub open spec fn escrow_prefix() -> Seq<u8> {
    seq![101u8, 115u8, 99u8, 114u8, 111u8, 119u8, 45u8]
}

/// The seed of the authority that controls the vault of order `order_code`.
pub open spec fn escrow_seed_spec(order_code: u64) -> Seq<u8> {
    escrow_prefix() + decimal(order_code as nat)
}

/// The bytes of the text `token-seed-`.
pub open spec fn vault_prefix() -> Seq<u8> {
    seq![116u8, 111u8, 107u8, 101u8, 110u8, 45u8, 115u8, 101u8, 101u8, 100u8, 45u8]
}

/// The seed of the address of the vault of order `order_code`.
pub open spec fn vault_seed_spec(order_code: u64) -> Seq<u8> {
    vault_prefix() + decimal(order_code as nat)
}

/// Ten to the power `k`.
pub open spec fn ten_pow(k: nat) -> nat
    decreases k,
{
    if k == 0 {
        1
    } else {
        10 * ten_pow((k - 1) as nat)
    }
}

/// A number below `10^k` has at most `k` digits.
proof fn lemma_decimal_bound(n: nat, k: nat)
    requires
        k >= 1,
        n < ten_pow(k),
    ensures
        decimal(n).len() <= k,
    decreases k,
{
    reveal_with_fuel(ten_pow, 3);
    if n >= 10 {
        if k > 1 {
            lemma_decimal_bound(n / 10, (k - 1) as nat);
        }
    }
}

/// The decimal rendering of a number is never empty and holds ASCII digits
/// only; that of a 64-bit number has at most 20 of them.
pub proof fn lemma_decimal_digits(n: nat)
    ensures
        1 <= decimal(n).len(),
        n <= u64::MAX ==> decimal(n).len() <= 20,
        forall|i: int| 0 <= i < decimal(n).len() ==> 48 <= #[trigger] decimal(n)[i] <= 57,
    decreases n,
{
    if n >= 10 {
        lemma_decimal_digits(n / 10);
    }
    if n <= u64::MAX {
        reveal_with_fuel(ten_pow, 22);
        assert(ten_pow(20) == 100000000000000000000);
        lemma_decimal_bound(n, 20);
    }
}

/// The number that a string of ASCII digits spells.
pub open spec fn decimal_value(digits: Seq<u8>) -> int
    decreases digits.len(),
{
    if digits.len() == 0 {
        0
    } else {
        decimal_value(digits.drop_last()) * 10 + (digits.last() - 48)
    }
}

/// The decimal rendering of a number spells that number.
pub proof fn lemma_decimal_value(n: nat)
    ensures
        decimal_value(decimal(n)) == n,
    decreases n,
{
    reveal_with_fuel(decimal_value, 2);
    if n < 10 {
        assert(decimal(n).drop_last() =~= Seq::<u8>::empty());
    } else {
        lemma_decimal_value(n / 10);
        assert(decimal(n).drop_last() =~= decimal(n / 10));
    }
}

/// Different numbers have different decimal renderings.
pub proof fn lemma_decimal_injective(a: nat, b: nat)
    requires
        decimal(a) == decimal(b),
    ensures
        a == b,
{
    lemma_decimal_value(a);
    lemma_decimal_value(b);
}

/// Different order codes give different seeds, for the authority and for the
/// vault: no two orders share a derived address by sharing a seed.
pub proof fn lemma_seeds_differ(a: u64, b: u64)
    requires
        a != b,
    ensures
        escrow_seed_spec(a) != escrow_seed_spec(b),
        vault_seed_spec(a) != vault_seed_spec(b),
{
    let da = decimal(a as nat);
    let db = decimal(b as nat);
    if escrow_seed_spec(a) == escrow_seed_spec(b) {
        assert(da =~= escrow_seed_spec(a).subrange(7, 7 + da.len() as int));
        assert(db =~= escrow_seed_spec(b).subrange(7, 7 + db.len() as int));
        assert(escrow_seed_spec(a).len() == 7 + da.len());
        assert(escrow_seed_spec(b).len() == 7 + db.len());
        lemma_decimal_injective(a as nat, b as nat);
    }
    if vault_seed_spec(a) == vault_seed_spec(b) {
        assert(da =~= vault_seed_spec(a).subrange(11, 11 + da.len() as int));
        assert(db =~= vault_seed_spec(b).subrange(11, 11 + db.len() as int));
        assert(vault_seed_spec(a).len() == 11 + da.len());
        assert(vault_seed_spec(b).len() == 11 + db.len());
        lemma_decimal_injective(a as nat, b as nat);
    }
}

/// Appends the decimal digits of `n` to `out`.
pub fn push_decimal(out: &mut Vec<u8>, n: u64)
    ensures
        final(out)@ == old(out)@ + decimal(n as nat),
    decreases n,
{
    if n >= 10 {
        push_decimal(out, n / 10);
    }
    let digit: u8 = 48u8 + (n % 10) as u8;
    out.push(digit);
    proof {
        assert(out@ =~= old(out)@ + decimal(n as nat));
    }
}

/// The seed of the authority that controls the vault of order `order_code`:
/// `escrow-` and the order code in decimal.
pub fn escrow_seed(order_code: u64) -> (seed: Vec<u8>)
    ensures
        seed@ == escrow_seed_spec(order_code),
        8 <= seed@.len() <= 27,
{
    let mut seed: Vec<u8> = Vec::new();
    seed.push(101u8);
    seed.push(115u8);
    seed.push(99u8);
    seed.push(114u8);
    seed.push(111u8);
    seed.push(119u8);
    seed.push(45u8);
    assert(seed@ =~= escrow_prefix());
    push_decimal(&mut seed, order_code);
    proof {
        lemma_decimal_digits(order_code as nat);
    }
    seed
}

/// The seed of the address of the vault of order `order_code`: `token-seed-`
/// and the order code in decimal.
pub fn vault_seed(order_code: u64) -> (seed: Vec<u8>)
    ensures
        seed@ == vault_seed_spec(order_code),
        12 <= seed@.len() <= 31,
{
    let mut seed: Vec<u8> = Vec::new();
    seed.push(116u8);
    seed.push(111u8);
    seed.push(107u8);
    seed.push(101u8);
    seed.push(110u8);
    seed.push(45u8);
    seed.push(115u8);
    seed.push(101u8);
    seed.push(101u8);
    seed.push(100u8);
    seed.push(45u8);
    assert(seed@ =~= vault_prefix());
    push_decimal(&mut seed, order_code);
    proof {
        lemma_decimal_digits(order_code as nat);
    }
    seed
}

} // verus!
