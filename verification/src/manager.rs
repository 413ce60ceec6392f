//! Shared core of the minting managers: the fund-movement instructions a
//! mint emits, the burn/forward split of an incoming payment, and the
//! monotonically increasing token-index counter that derives token keys.

use vstd::prelude::*;

use crate::coin::{spec_native_denom, Coin};
use crate::strings::dec_digits;

verus! {

/// A fund movement the host ledger is instructed to perform: destroy an
/// amount, or transfer it to an address.
#[derive(Debug)]
pub enum FundInstruction {
    Burn { denom: String, amount: u128 },
    Send { to_address: String, denom: String, amount: u128 },
}

/// A mint command addressed to a collection, carrying the extension type
/// of that collection's tokens.
#[derive(Debug)]
pub struct MintCommand<E> {
    pub token_id: String,
    pub owner: String,
    pub token_uri: Option<String>,
    pub extension: E,
}

/// Everything a successful manager mint emits: fund movements first, then
/// one mint command per token. Either all of it commits or none does.
#[derive(Debug)]
pub struct MintPlan<E> {
    pub fund_instructions: Vec<FundInstruction>,
    pub mints: Vec<MintCommand<E>>,
}

/// The burned part of a payment: `floor(amount * ratio / 100)`.
pub open spec fn spec_burn_amount(amount: u128, ratio: u64) -> int {
    (amount * ratio) / 100
}

/// Splitting by percentage never burns more than the payment.
pub proof fn lemma_burn_amount_le(amount: u128, ratio: u64)
    requires
        ratio <= 100,
    ensures
        0 <= spec_burn_amount(amount, ratio) <= amount,
        ratio == 100 ==> spec_burn_amount(amount, ratio) == amount,
{
    let a = amount as int;
    let r = ratio as int;
    vstd::arithmetic::mul::lemma_mul_nonnegative(a, r);
    vstd::arithmetic::mul::lemma_mul_inequality(r, 100, a);
    assert(a * r == r * a) by (nonlinear_arith);
    assert(a * 100 == 100 * a) by (nonlinear_arith);
    vstd::arithmetic::div_mod::lemma_div_is_ordered(a * r, a * 100, 100);
    vstd::arithmetic::div_mod::lemma_div_by_multiple(a, 100);
}

/// The percentage split computed by divide-first: equal to the exact
/// floored product.
proof fn lemma_percent_split(a: int, r: int)
    requires
        a >= 0,
        r >= 0,
    ensures
        (a * r) / 100 == (a / 100) * r + ((a % 100) * r) / 100,
{
    let q = a / 100;
    let s = a % 100;
    vstd::arithmetic::div_mod::lemma_fundamental_div_mod(a, 100);
    let sr = s * r;
    vstd::arithmetic::mul::lemma_mul_nonnegative(s, r);
    let t = sr / 100;
    let u = sr % 100;
    vstd::arithmetic::div_mod::lemma_fundamental_div_mod(sr, 100);
    vstd::arithmetic::div_mod::lemma_mod_decreases(sr as nat, 100);
    assert(0 <= u < 100);
    assert(a * r == 100 * (q * r + t) + u) by (nonlinear_arith)
        requires
            a == 100 * q + s,
            sr == s * r,
            sr == 100 * t + u,
    ;
    assert(q * r + t >= 0) by (nonlinear_arith)
        requires
            q >= 0,
            r >= 0,
            t >= 0,
    ;
    vstd::arithmetic::div_mod::lemma_fundamental_div_mod_converse(a * r, 100, q * r + t, u);
}

/// The burned amount of a payment under a percentage burn ratio.
pub fn compute_burn_amount(amount: u128, ratio: u64) -> (r: u128)
    requires
        ratio <= 100,
    ensures
        r == spec_burn_amount(amount, ratio),
        r <= amount,
{
    proof {
        lemma_burn_amount_le(amount, ratio);
        lemma_percent_split(amount as int, ratio as int);
        assert((amount as int % 100) * (ratio as int) <= 9900) by (nonlinear_arith)
            requires
                0 <= amount as int % 100 < 100,
                0 <= ratio <= 100,
        ;
        assert((amount as int / 100) * (ratio as int) <= (amount as int * ratio as int) / 100);
    }
    let whole: u128 = amount / 100;
    let rest: u128 = amount % 100;
    whole * (ratio as u128) + (rest * (ratio as u128)) / 100
}

/// Whether the split of this payment needs a forwarding destination: every
/// non-native payment is forwarded in full, and a native one is forwarded
/// unless the burn ratio is one hundred.
pub open spec fn spec_needs_destination(denom: Seq<char>, ratio: u64) -> bool {
    denom != spec_native_denom() || ratio != 100
}

/// The exact shape of a split's instruction list: the native denomination
/// is burned by `floor(amount * ratio / 100)` with the remainder
/// forwarded (no burn instruction at ratio zero, no forwarding at ratio
/// one hundred); any other denomination is forwarded in full.
pub open spec fn spec_split_shape(
    out: Seq<FundInstruction>,
    denom: Seq<char>,
    amount: u128,
    ratio: u64,
    destination: Option<String>,
) -> bool {
    if denom == spec_native_denom() {
        let burn = spec_burn_amount(amount, ratio);
        if ratio == 0 {
            out.len() == 1 && is_send_to(out[0], destination, denom, amount)
        } else if ratio == 100 {
            out.len() == 1 && is_burn(out[0], denom, amount)
        } else {
            &&& out.len() == 2
            &&& is_burn(out[0], denom, burn as u128)
            &&& is_send_to(out[1], destination, denom, (amount - burn) as u128)
        }
    } else {
        out.len() == 1 && is_send_to(out[0], destination, denom, amount)
    }
}

/// The fund movements for one accepted payment: the native denomination is
/// burned by `floor(amount * ratio / 100)` (a burn instruction whenever the
/// ratio is positive) and the remainder is forwarded; any other
/// denomination is forwarded in full. Fails exactly when a forwarding is
/// due and no destination is configured; no instruction moves more than
/// the payment in total.
pub fn fund_split(funds: &Coin, ratio: u64, destination: &Option<String>) -> (r: Result<
    Vec<FundInstruction>,
    (),
>)
    requires
        ratio <= 100,
    ensures
        r is Err <==> spec_needs_destination(funds.denom@, ratio) && destination is None,
        r is Ok ==> spec_split_shape(r.unwrap()@, funds.denom@, funds.amount, ratio, *destination),
{
    let native = crate::strings::str_eq(funds.denom.as_str(), crate::coin::native_denom());
    let mut out: Vec<FundInstruction> = Vec::new();
    if native {
        if ratio > 0 {
            let burn = compute_burn_amount(funds.amount, ratio);
            out.push(FundInstruction::Burn { denom: funds.denom.clone(), amount: burn });
        }
        if ratio != 100 {
            let burn = compute_burn_amount(funds.amount, ratio);
            match destination {
                None => {
                    return Err(());
                },
                Some(dest) => {
                    out.push(
                        FundInstruction::Send {
                            to_address: dest.clone(),
                            denom: funds.denom.clone(),
                            amount: funds.amount - burn,
                        },
                    );
                },
            }
        } else {
            proof {
                lemma_burn_amount_le(funds.amount, ratio);
            }
        }
        Ok(out)
    } else {
        match destination {
            None => Err(()),
            Some(dest) => {
                out.push(
                    FundInstruction::Send {
                        to_address: dest.clone(),
                        denom: funds.denom.clone(),
                        amount: funds.amount,
                    },
                );
                Ok(out)
            },
        }
    }
}

/// The instruction burns `amount` of `denom`.
pub open spec fn is_burn(fi: FundInstruction, denom: Seq<char>, amount: u128) -> bool {
    match fi {
        FundInstruction::Burn { denom: d, amount: a } => d@ == denom && a == amount,
        _ => false,
    }
}

/// The instruction sends `amount` of `denom` to the configured address.
pub open spec fn is_send_to(
    fi: FundInstruction,
    destination: Option<String>,
    denom: Seq<char>,
    amount: u128,
) -> bool {
    match fi {
        FundInstruction::Send { to_address, denom: d, amount: a } => {
            &&& (match destination {
                Some(dest) => to_address@ == dest@,
                None => false,
            })
            &&& d@ == denom
            &&& a == amount
        },
        _ => false,
    }
}

/// The amount one instruction moves.
pub open spec fn spec_instruction_amount(fi: FundInstruction) -> int {
    match fi {
        FundInstruction::Burn { amount, .. } => amount as int,
        FundInstruction::Send { amount, .. } => amount as int,
    }
}

/// The total amount a split's instructions move.
pub open spec fn spec_total_moved(out: Seq<FundInstruction>) -> int
    decreases out.len(),
{
    if out.len() == 0 {
        0
    } else {
        spec_total_moved(out.drop_last()) + spec_instruction_amount(out.last())
    }
}

/// A split never creates or loses funds: burned and forwarded amounts
/// add up to the payment exactly, whatever the ratio.
pub proof fn lemma_split_conserves(
    out: Seq<FundInstruction>,
    denom: Seq<char>,
    amount: u128,
    ratio: u64,
    destination: Option<String>,
)
    requires
        ratio <= 100,
        spec_split_shape(out, denom, amount, ratio, destination),
    ensures
        spec_total_moved(out) == amount,
{
    lemma_burn_amount_le(amount, ratio);
    assert(spec_total_moved(Seq::<FundInstruction>::empty()) == 0);
    if denom == spec_native_denom() && ratio != 0 && ratio != 100 {
        let burn = spec_burn_amount(amount, ratio);
        assert(out.drop_last() =~= seq![out[0]]);
        assert(out.last() == out[1]);
        assert(seq![out[0]].drop_last() =~= Seq::<FundInstruction>::empty());
        assert(seq![out[0]].last() == out[0]);
        assert(spec_total_moved(seq![out[0]]) == spec_instruction_amount(out[0]));
        assert(spec_instruction_amount(out[0]) == burn);
        assert(spec_instruction_amount(out[1]) == amount - burn);
        assert(spec_total_moved(out) == spec_total_moved(out.drop_last())
            + spec_instruction_amount(out.last()));
    } else {
        assert(out.len() == 1);
        assert(out.drop_last() =~= Seq::<FundInstruction>::empty());
        assert(out.last() == out[0]);
        assert(spec_instruction_amount(out[0]) == amount);
        assert(spec_total_moved(out) == spec_total_moved(out.drop_last())
            + spec_instruction_amount(out.last()));
    }
}

/// Advances the token-index counter and returns the fresh index; indexes
/// start at one and are never reused, even after burns.
pub fn increment_token_index(index: &mut u64) -> (r: u64)
    requires
        *old(index) < u64::MAX,
    ensures
        *final(index) == *old(index) + 1,
        r == *final(index),
{
    *index = *index + 1;
    *index
}

/// The allowed collection code identifier, as answered to queries.
#[derive(Debug)]
pub struct AllowedCollectionCodeIdResponse {
    pub code_id: u64,
}

/// The token key derived from a token index.
pub open spec fn spec_token_key(index: u64) -> Seq<char> {
    dec_digits(index as int)
}

} // verus!
