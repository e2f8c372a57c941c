//! Derivation of the name of the cross-process restart event: a fixed ASCII
//! prefix followed by the target window handle's decimal digits, as
//! null-terminated UTF-16 code units — the out-of-band "please reattach"
//! channel between host and client is a named event, and both sides must
//! derive the same name from the same handle.

use vstd::prelude::*;

verus! {

/// The decimal digits of `n` as UTF-16 code units, most significant first.
pub open spec fn spec_decimal(n: u64) -> Seq<u16>
    decreases n,
{
    if n < 10 {
        seq![(48 + n) as u16]
    } else {
        spec_decimal(n / 10) + seq![(48 + n % 10) as u16]
    }
}

/// Decimal digits are the code units of '0' through '9': never zero, so a
/// digit never terminates the name early.
pub proof fn lemma_decimal_digits(n: u64)
    ensures
        spec_decimal(n).len() >= 1,
        forall|i: int| 0 <= i < spec_decimal(n).len() ==> 48 <= #[trigger] spec_decimal(n)[i] <= 57,
    decreases n,
{
    if n < 10 {
    } else {
        assert(n / 10 < n) by (nonlinear_arith)
            requires
                n >= 10,
        ;
        lemma_decimal_digits(n / 10);
        assert(forall|i: int|
            0 <= i < spec_decimal(n / 10).len() ==> #[trigger] spec_decimal(n)[i] == spec_decimal(
                n / 10,
            )[i]);
    }
}

/// Appends the decimal digits of `n` to `out`.
pub fn push_decimal(n: u64, out: &mut Vec<u16>)
    ensures
        final(out)@ == old(out)@ + spec_decimal(n),
    decreases n,
{
    if n < 10 {
        out.push(48 + (n as u16));
        proof {
            assert(final(out)@ =~= old(out)@ + spec_decimal(n));
        }
    } else {
        proof {
            assert(n / 10 < n) by (nonlinear_arith)
                requires
                    n >= 10,
            ;
        }
        push_decimal(n / 10, out);
        out.push(48 + ((n % 10) as u16));
        proof {
            assert(final(out)@ =~= old(out)@ + spec_decimal(n));
        }
    }
}

/// The restart event's name for a window handle: "Global\Restart-" followed
/// by the handle's decimal digits and a null terminator, as UTF-16 code
/// units.
pub open spec fn spec_event_name(hwnd: u64) -> Seq<u16> {
    seq![
        71u16,
        108u16,
        111u16,
        98u16,
        97u16,
        108u16,
        92u16,
        82u16,
        101u16,
        115u16,
        116u16,
        97u16,
        114u16,
        116u16,
        45u16,
    ] + spec_decimal(hwnd) + seq![0u16]
}

/// Builds the restart event's null-terminated UTF-16 name for a window
/// handle.  The terminator is the only zero code unit, so the name is a
/// well-formed C string; the derivation is a function of the handle alone,
/// so host and client arrive at the same name.
pub fn event_name_utf16(hwnd: u64) -> (v: Vec<u16>)
    ensures
        v@ == spec_event_name(hwnd),
        v@.len() >= 1,
        v@[v@.len() - 1] == 0,
        forall|i: int| 0 <= i < v@.len() - 1 ==> v@[i] != 0,
{
    let mut v: Vec<u16> = Vec::new();
    v.push(71);
    v.push(108);
    v.push(111);
    v.push(98);
    v.push(97);
    v.push(108);
    v.push(92);
    v.push(82);
    v.push(101);
    v.push(115);
    v.push(116);
    v.push(97);
    v.push(114);
    v.push(116);
    v.push(45);
    push_decimal(hwnd, &mut v);
    v.push(0);
    proof {
        lemma_decimal_digits(hwnd);
        assert(v@ =~= spec_event_name(hwnd));
    }
    v
}

} // verus!
