//! The packed-integer codec: a packed value splits into fixed-width unsigned
//! fields, least-significant field first, in schema order. Pure integer
//! arithmetic, so decoding is bit-exact everywhere.

use vstd::prelude::*;
use vstd::arithmetic::power2::pow2;
use vstd::arithmetic::power2::lemma_pow2_adds;
use vstd::arithmetic::power2::lemma_pow2_strictly_increases;
use vstd::arithmetic::power2::lemma_pow2_pos;
use vstd::arithmetic::power2::lemma_pow2_unfold;
use vstd::arithmetic::power2::lemma2_to64;
use vstd::arithmetic::power2::lemma2_to64_rest;
use vstd::arithmetic::div_mod::lemma_fundamental_div_mod_converse;
use vstd::arithmetic::div_mod::lemma_small_mod;
use vstd::arithmetic::div_mod::lemma_basic_div;
use vstd::arithmetic::mul::lemma_mul_inequality;
use vstd::arithmetic::mul::lemma_mul_is_commutative;
use crate::GenError;

verus! {

/// The packed integer's capacity in bits.
pub const CAPACITY: u64 = 128;

/// An ordered list of field bit-widths: how a packed integer decomposes.
/// Decoding order must match the order the table was packed with; the
/// widths must sum to at most [`CAPACITY`] bits.
pub struct FieldSchema {
    pub widths: Vec<u64>,
}

/// The sum of the first `n` widths.
pub open spec fn width_sum(widths: Seq<u64>, n: int) -> int
    decreases n,
{
    if n <= 0 {
        0
    } else {
        width_sum(widths, n - 1) + widths[n - 1]
    }
}

/// The sum of all widths.
pub open spec fn spec_total_width(widths: Seq<u64>) -> int {
    width_sum(widths, widths.len() as int)
}

/// Partial sums of widths only grow.
pub proof fn lemma_width_sum_monotone(widths: Seq<u64>, m: int, n: int)
    requires
        0 <= m <= n,
    ensures
        width_sum(widths, m) <= width_sum(widths, n),
    decreases n,
{
    if n > m {
        lemma_width_sum_monotone(widths, m, n - 1);
    }
}

/// The field codes hidden in `packed`: each field is the remainder by two to
/// its width, and the quotient carries the rest.
pub open spec fn spec_decode(packed: nat, widths: Seq<u64>) -> Seq<u128>
    decreases widths.len(),
{
    if widths.len() == 0 {
        Seq::empty()
    } else {
        seq![(packed % pow2(widths[0] as nat)) as u128] + spec_decode(
            packed / pow2(widths[0] as nat),
            widths.drop_first(),
        )
    }
}

/// Decoding yields one code per schema field.
pub proof fn lemma_decode_len(packed: nat, widths: Seq<u64>)
    ensures
        spec_decode(packed, widths).len() == widths.len(),
    decreases widths.len(),
{
    if widths.len() > 0 {
        lemma_pow2_pos(widths[0] as nat);
        lemma_decode_len(packed / pow2(widths[0] as nat), widths.drop_first());
    }
}

/// The packed integer that carries `values`, field by field, least
/// significant first.
pub open spec fn spec_encode(values: Seq<u128>, widths: Seq<u64>) -> nat
    decreases values.len(),
{
    if values.len() == 0 || widths.len() == 0 {
        0
    } else {
        (values[0] + pow2(widths[0] as nat) * spec_encode(
            values.drop_first(),
            widths.drop_first(),
        )) as nat
    }
}

/// Decoding undoes encoding: values that fit their fields come back exactly.
pub proof fn lemma_codec_round_trip(values: Seq<u128>, widths: Seq<u64>)
    requires
        values.len() == widths.len(),
        forall|i: int| 0 <= i < values.len() ==> (values[i] as nat) < pow2(widths[i] as nat),
    ensures
        spec_decode(spec_encode(values, widths), widths) == values,
    decreases values.len(),
{
    if values.len() == 0 {
        assert(spec_decode(spec_encode(values, widths), widths) =~= values);
    } else {
        let p = pow2(widths[0] as nat);
        let vrest = values.drop_first();
        let wrest = widths.drop_first();
        assert(forall|i: int|
            0 <= i < vrest.len() ==> (vrest[i] as nat) < pow2(wrest[i] as nat));
        lemma_codec_round_trip(vrest, wrest);
        let rest = spec_encode(vrest, wrest);
        let packed = spec_encode(values, widths);
        lemma_pow2_pos(widths[0] as nat);
        lemma_mul_is_commutative(p as int, rest as int);
        lemma_fundamental_div_mod_converse(packed as int, p as int, rest as int, values[0] as int);
        assert(packed % p == values[0] as nat);
        assert(packed / p == rest);
        assert(spec_decode(packed, widths) =~= values);
    }
}

impl FieldSchema {
    /// The number of fields.
    pub fn len(&self) -> (n: usize)
        ensures
            n == self.widths@.len(),
    {
        self.widths.len()
    }

    /// The sum of all field widths, or `SchemaOverflow` past the capacity.
    pub fn checked_total(&self) -> (r: Result<u64, GenError>)
        ensures
            spec_total_width(self.widths@) <= CAPACITY ==> r is Ok && r->Ok_0
                == spec_total_width(self.widths@),
            spec_total_width(self.widths@) > CAPACITY ==> r is Err && r->Err_0
                == GenError::SchemaOverflow,
    {
        let mut total: u64 = 0;
        let mut i: usize = 0;
        while i < self.widths.len()
            invariant
                i <= self.widths@.len(),
                total == width_sum(self.widths@, i as int),
                total <= CAPACITY,
            decreases self.widths@.len() - i,
        {
            let w = self.widths[i];
            if w > CAPACITY - total {
                proof {
                    lemma_width_sum_monotone(self.widths@, i as int + 1, self.widths@.len() as int);
                }
                return Err(GenError::SchemaOverflow);
            }
            total = total + w;
            i = i + 1;
        }
        Ok(total)
    }
}

/// Two to the `w`, for `w` below the capacity.
fn pow2_exec(w: u64) -> (p: u128)
    requires
        w < 128,
    ensures
        p == pow2(w as nat),
        p >= 1,
{
    proof {
        lemma2_to64();
        lemma2_to64_rest();
        lemma_pow2_adds(63, 64);
        assert(pow2(127) == 0x80000000000000000000000000000000);
    }
    proof {
        lemma_pow2_pos(w as nat);
    }
    let mut p: u128 = 1;
    let mut j: u64 = 0;
    proof {
        lemma2_to64();
    }
    while j < w
        invariant
            j <= w,
            w < 128,
            p == pow2(j as nat),
        decreases w - j,
    {
        proof {
            lemma_pow2_strictly_increases(j as nat + 1, 128);
            lemma2_to64();
            lemma_pow2_adds(64, 64);
            assert(pow2(128) == 0x100000000000000000000000000000000);
            vstd::arithmetic::power2::lemma_pow2_unfold(j as nat + 1);
        }
        p = p * 2;
        j = j + 1;
    }
    p
}

/// Splits `packed` into the schema's fields, least-significant field first.
/// Fails with `SchemaOverflow`, and only then, when the widths together
/// exceed the capacity.
pub fn decode(packed: u128, schema: &FieldSchema) -> (r: Result<Vec<u128>, GenError>)
    ensures
        spec_total_width(schema.widths@) <= CAPACITY ==> r is Ok && r->Ok_0@ == spec_decode(
            packed as nat,
            schema.widths@,
        ),
        spec_total_width(schema.widths@) > CAPACITY ==> r is Err && r->Err_0
            == GenError::SchemaOverflow,
{
    if let Err(e) = schema.checked_total() {
        return Err(e);
    }
    let mut out: Vec<u128> = Vec::new();
    let mut rem: u128 = packed;
    let mut i: usize = 0;
    proof {
        assert(out@ =~= codes_upto(packed as nat, schema.widths@, 0));
    }
    while i < schema.widths.len()
        invariant
            i <= schema.widths@.len(),
            out@ == codes_upto(packed as nat, schema.widths@, i as int),
            rem as nat == rem_after(packed as nat, schema.widths@, i as int),
        decreases schema.widths@.len() - i,
    {
        let w = schema.widths[i];
        let code: u128;
        if w >= 128 {
            proof {
                if w > 128 {
                    lemma_pow2_strictly_increases(128, w as nat);
                }
                lemma2_to64();
            lemma_pow2_adds(64, 64);
            assert(pow2(128) == 0x100000000000000000000000000000000);
                lemma_small_mod(rem as nat, pow2(w as nat));
                lemma_basic_div(rem as int, pow2(w as nat) as int);
            }
            code = rem;
            rem = 0;
        } else {
            let p = pow2_exec(w);
            code = rem % p;
            rem = rem / p;
        }
        out.push(code);
        proof {
            assert(out@ =~= codes_upto(packed as nat, schema.widths@, i as int + 1));
        }
        i = i + 1;
    }
    proof {
        lemma_decode_prefix_full(packed as nat, schema.widths@, schema.widths@.len() as int);
    }
    Ok(out)
}

/// The quotient left after stripping the first `n` fields.
pub open spec fn rem_after(packed: nat, widths: Seq<u64>, n: int) -> nat
    decreases n,
{
    if n <= 0 {
        packed
    } else {
        rem_after(packed, widths, n - 1) / pow2(widths[n - 1] as nat)
    }
}

/// The first `n` decoded fields, read off the running quotient.
pub open spec fn codes_upto(packed: nat, widths: Seq<u64>, n: int) -> Seq<u128>
    decreases n,
{
    if n <= 0 {
        Seq::empty()
    } else {
        codes_upto(packed, widths, n - 1) + seq![
            (rem_after(packed, widths, n - 1) % pow2(widths[n - 1] as nat)) as u128,
        ]
    }
}

/// Stepping once from the front commutes with the prefix recursion.
proof fn lemma_front_shift(packed: nat, widths: Seq<u64>, k: int)
    requires
        1 <= k <= widths.len(),
    ensures
        codes_upto(packed, widths, k) == seq![(packed % pow2(widths[0] as nat)) as u128]
            + codes_upto(packed / pow2(widths[0] as nat), widths.drop_first(), k - 1),
        rem_after(packed, widths, k) == rem_after(
            packed / pow2(widths[0] as nat),
            widths.drop_first(),
            k - 1,
        ),
    decreases k,
{
    lemma_pow2_pos(widths[0] as nat);
    let q = packed / pow2(widths[0] as nat);
    let wrest = widths.drop_first();
    assert(rem_after(packed, widths, 0) == packed);
    assert(rem_after(q, wrest, 0) == q);
    assert(codes_upto(packed, widths, 0) =~= Seq::<u128>::empty());
    assert(codes_upto(q, wrest, 0) =~= Seq::<u128>::empty());
    if k == 1 {
        assert(rem_after(packed, widths, 1) == rem_after(packed, widths, 0) / pow2(
            widths[0] as nat,
        ));
        assert(codes_upto(packed, widths, 1) =~= seq![(packed % pow2(widths[0] as nat)) as u128]
            + codes_upto(q, wrest, 0));
    } else {
        lemma_front_shift(packed, widths, k - 1);
        assert(wrest[k - 2] == widths[k - 1]);
        assert(rem_after(packed, widths, k) == rem_after(packed, widths, k - 1) / pow2(
            widths[k - 1] as nat,
        ));
        assert(rem_after(q, wrest, k - 1) == rem_after(q, wrest, k - 2) / pow2(
            wrest[k - 2] as nat,
        ));
        assert(codes_upto(packed, widths, k) == codes_upto(packed, widths, k - 1) + seq![
            (rem_after(packed, widths, k - 1) % pow2(widths[k - 1] as nat)) as u128,
        ]);
        assert(codes_upto(q, wrest, k - 1) == codes_upto(q, wrest, k - 2) + seq![
            (rem_after(q, wrest, k - 2) % pow2(wrest[k - 2] as nat)) as u128,
        ]);
        assert(codes_upto(packed, widths, k) =~= seq![(packed % pow2(widths[0] as nat)) as u128]
            + codes_upto(q, wrest, k - 1));
    }
}

/// Decoding all fields step by step agrees with the recursive definition.
pub proof fn lemma_decode_prefix_full(packed: nat, widths: Seq<u64>, n: int)
    requires
        n == widths.len(),
    ensures
        codes_upto(packed, widths, n) == spec_decode(packed, widths),
    decreases n,
{
    if n == 0 {
        assert(codes_upto(packed, widths, 0) =~= spec_decode(packed, widths));
    } else {
        lemma_front_shift(packed, widths, n);
        lemma_pow2_pos(widths[0] as nat);
        let q = packed / pow2(widths[0] as nat);
        lemma_decode_prefix_full(q, widths.drop_first(), n - 1);
        assert(spec_decode(packed, widths) == seq![(packed % pow2(widths[0] as nat)) as u128]
            + spec_decode(q, widths.drop_first()));
        assert(codes_upto(packed, widths, n) =~= spec_decode(packed, widths));
    }
}

/// Packs `values` into one integer by the schema, least-significant field
/// first. Fails with `SchemaOverflow` when the widths exceed the capacity,
/// and with `MalformedTable` when the value count differs from the field
/// count or a value does not fit its field.
pub fn encode(values: &Vec<u128>, schema: &FieldSchema) -> (r: Result<u128, GenError>)
    ensures
        r is Ok ==> spec_total_width(schema.widths@) <= CAPACITY && values@.len()
            == schema.widths@.len() && (forall|i: int|
            0 <= i < values@.len() ==> (values@[i] as nat) < pow2(schema.widths@[i] as nat))
            && r->Ok_0 == spec_encode(values@, schema.widths@),
        spec_total_width(schema.widths@) > CAPACITY ==> r is Err && r->Err_0
            == GenError::SchemaOverflow,
        spec_total_width(schema.widths@) <= CAPACITY && values@.len() == schema.widths@.len() && (
        forall|i: int|
            0 <= i < values@.len() ==> (values@[i] as nat) < pow2(schema.widths@[i] as nat))
            ==> r is Ok,
{
    if let Err(e) = schema.checked_total() {
        return Err(e);
    }
    if values.len() != schema.widths.len() {
        return Err(GenError::MalformedTable);
    }
    let n = values.len();
    let mut packed: u128 = 0;
    let mut i: usize = n;
    proof {
        assert(values@.skip(n as int) =~= Seq::<u128>::empty());
        assert(schema.widths@.skip(n as int) =~= Seq::<u64>::empty());
        lemma2_to64();
    }
    while i > 0
        invariant
            i <= n,
            n == values@.len(),
            n == schema.widths@.len(),
            spec_total_width(schema.widths@) <= CAPACITY,
            forall|k: int| i <= k < n ==> (values@[k] as nat) < pow2(schema.widths@[k] as nat),
            packed as nat == spec_encode(values@.skip(i as int), schema.widths@.skip(i as int)),
            (packed as nat) < pow2(
                (width_sum(schema.widths@, n as int) - width_sum(schema.widths@, i as int)) as nat,
            ),
        decreases i,
    {
        let ghost rest_bits = (width_sum(schema.widths@, n as int) - width_sum(
            schema.widths@,
            i as int,
        )) as nat;
        let w = schema.widths[i - 1];
        let v = values[i - 1];
        proof {
            lemma_width_sum_monotone(schema.widths@, i as int, n as int);
            lemma_width_sum_monotone(schema.widths@, 0, i as int - 1);
        }
        if w >= 128 {
            // A field spanning the whole capacity: every other field is
            // zero-width, so nothing has been packed yet.
            proof {
                lemma2_to64();
                assert(w == 128);
                assert(rest_bits == 0);
                assert(packed == 0);
                lemma2_to64();
            lemma_pow2_adds(64, 64);
            assert(pow2(128) == 0x100000000000000000000000000000000);
            }
            packed = v;
        } else {
            let p = pow2_exec(w);
            if v >= p {
                return Err(GenError::MalformedTable);
            }
            proof {
                lemma_pow2_pos(w as nat);
                assert(packed as nat + 1 <= pow2(rest_bits));
                lemma_mul_inequality(packed as int + 1, pow2(rest_bits) as int, p as int);
                assert((packed as int + 1) * (p as int) == (packed as int) * (p as int) + p)
                    by (nonlinear_arith);
                lemma_pow2_adds(rest_bits, w as nat);
                if rest_bits + w < 128 {
                    lemma_pow2_strictly_increases((rest_bits + w) as nat, 128);
                }
                lemma2_to64();
            lemma_pow2_adds(64, 64);
            assert(pow2(128) == 0x100000000000000000000000000000000);
                lemma_mul_is_commutative(p as int, packed as int);
            }
            packed = packed * p + v;
        }
        proof {
            assert(values@.skip(i as int - 1).drop_first() =~= values@.skip(i as int));
            assert(schema.widths@.skip(i as int - 1).drop_first() =~= schema.widths@.skip(
                i as int,
            ));
            lemma_pow2_adds(rest_bits, w as nat);
        }
        i = i - 1;
    }
    proof {
        assert(values@.skip(0) =~= values@);
        assert(schema.widths@.skip(0) =~= schema.widths@);
    }
    Ok(packed)
}

} // verus!
