//! The power chip.

use vstd::prelude::*;
use crate::laws::bits::{bits_are_changed, single_bits};
use crate::bus::{Fault, Session};
use crate::chip::{read_gives_the_register, updated_register_is_held, written_register_is_held, Registers};
use crate::pmu::interrupts::InterruptStatus;
use crate::pmu::types::ChargeCurrent;
use crate::pmu::{
    boot_voltages, decoding, device_check, initialising, interrupts_reading, ldo_code, ldo_setting, monitor_setup,
    sampling, step_code, switching, two_range_code, two_range_mv, writing_three, Error,
};

verus! {

// ---- Codes ------------------------------------------------------------------

/// A voltage counted in steps: the highest one that is not above the
/// request, and the end of the range where the request is outside.
pub proof fn stepped_voltage_is_held(mv: int, lo: int, hi: int, step: int)
    requires
        step >= 50,
        0 <= lo <= hi,
        hi - lo <= 4000,
    ensures
        mv <= lo ==> step_code(mv, lo, hi, step) == 0,
        mv >= hi ==> step_code(mv, lo, hi, step) * step <= hi - lo < step_code(mv, lo, hi, step) * step + step,
        lo <= mv <= hi ==> step_code(mv, lo, hi, step) * step <= mv - lo < step_code(mv, lo, hi, step) * step + step,
{
    let x = (if mv < lo { lo } else if mv > hi { hi } else { mv }) - lo;
    let q = x / step;
    assert(0 <= q <= 255 && q * step <= x < q * step + step && (x == 0 ==> q == 0)) by (nonlinear_arith)
        requires
            0 <= x <= 4000,
            step >= 50,
            q == x / step,
    ;
    assert(0int / step == 0) by (nonlinear_arith)
        requires
            step >= 50,
    ;
}

/// An LDO's code counts 100 mV from 500 mV on.
pub proof fn ldo_voltage_by_number(mv: int)
    requires
        500 <= mv <= 3500,
    ensures
        500 + 100 * ldo_code(mv) <= mv < 600 + 100 * ldo_code(mv),
{
}

/// The charge current picked is the highest that the chip has and that is
/// not above the request: steps of 25 mA up to 200 mA, then of 100 mA from
/// 300 to 1000 mA.
pub proof fn charge_current_is_highest_allowed(ma: int, n: u8)
    requires
        0 <= ma,
        n <= 16,
    ensures
        ({
            let mine = |k: u8| if k <= 8 { 25 * k } else { 100 * k - 600 };
            let got = ChargeCurrent::of_ma(ma).0;
            &&& got <= 16
            &&& mine(got) <= ma
            &&& mine(n) <= ma ==> n <= got
        }),
{
}

// ---- On a chip that keeps its registers -------------------------------------

/// A read gives what its register stands for.
pub proof fn decoded_reads<T>(regs: Registers, addr: u8, s: Session, r: u8, meaning: spec_fn(u8) -> T)
    requires
        regs.answers(addr, decoding(s, addr, r, meaning).0),
    ensures
        decoding(s, addr, r, meaning).1 == Ok::<T, Error<Fault>>(meaning(regs.now(addr, s).at(r as int))),
{
    assert(decoding(s, addr, r, meaning).0 == s.read_reg(addr, r).0);
    read_gives_the_register(regs, addr, s, r);
}

/// A switch sets or clears its bits and keeps all others, and all other
/// registers.
pub proof fn switched_bits(regs: Registers, addr: u8, s: Session, r: u8, mask: u8, on: bool)
    requires
        regs.answers(addr, switching(s, addr, r, mask, on).0),
    ensures
        regs.answers(addr, s),
        switching(s, addr, r, mask, on).1 is Ok,
        ({
            let (before, after) = (regs.now(addr, s), regs.now(addr, switching(s, addr, r, mask, on).0));
            &&& after.at(r as int) & mask == (if on { mask } else { 0 })
            &&& after.at(r as int) & !mask == before.at(r as int) & !mask
            &&& forall|q: int| q != r ==> #[trigger] after.at(q) == before.at(q)
        }),
{
    let set: u8 = if on { mask } else { 0 };
    updated_register_is_held(regs, addr, s, r, mask, set);
    let v = regs.now(addr, s).at(r as int);
    bits_are_changed(v, mask);
}

/// An ADC value: the low six bits of the high register, then the whole
/// low one.
pub proof fn sampled_value(regs: Registers, addr: u8, s: Session, high: u8, low: u8)
    requires
        regs.answers(addr, sampling(s, addr, high, low).0),
    ensures
        sampling(s, addr, high, low).1 matches Ok(v) && v as int / 256 == regs.now(addr, s).at(high as int) as int % 64
            && v as int % 256 == regs.now(addr, s).at(low as int),
{
    let t = sampling(s, addr, high, low).0;
    let (s1, e1) = s.read_reg(addr, high);
    if e1 is Err {
        assert(t == s1);
        read_gives_the_register(regs, addr, s, high);
    } else {
        assert(t == s1.read_reg(addr, low).0);
        read_gives_the_register(regs, addr, s1, low);
        read_gives_the_register(regs, addr, s, high);
    }
}

/// The interrupt status is that of registers 48h, 49h and 4Ah.
pub proof fn interrupts_read(regs: Registers, addr: u8, s: Session)
    requires
        regs.answers(addr, interrupts_reading(s, addr).0),
    ensures
        interrupts_reading(s, addr).1 == Ok::<InterruptStatus, Error<Fault>>(
            InterruptStatus {
                reg48: regs.now(addr, s).at(0x48),
                reg49: regs.now(addr, s).at(0x49),
                reg4a: regs.now(addr, s).at(0x4A),
            },
        ),
{
    let t = interrupts_reading(s, addr).0;
    let (s1, e1) = s.read_reg(addr, 0x48);
    if e1 is Err {
        assert(t == s1);
        read_gives_the_register(regs, addr, s, 0x48);
    } else {
        let (s2, e2) = s1.read_reg(addr, 0x49);
        if e2 is Err {
            assert(t == s2);
            read_gives_the_register(regs, addr, s1, 0x49);
        } else {
            assert(t == s2.read_reg(addr, 0x4A).0);
            read_gives_the_register(regs, addr, s2, 0x4A);
            read_gives_the_register(regs, addr, s1, 0x49);
            read_gives_the_register(regs, addr, s, 0x48);
        }
    }
}

/// Three writes leave their three registers with their values.
pub proof fn three_are_held(regs: Registers, addr: u8, s: Session, a: (u8, u8), b: (u8, u8), c: (u8, u8))
    requires
        a.0 != b.0 && b.0 != c.0 && a.0 != c.0,
        regs.answers(addr, writing_three(s, addr, a, b, c).0),
    ensures
        writing_three(s, addr, a, b, c).1 is Ok,
        ({
            let now = regs.now(addr, writing_three(s, addr, a, b, c).0);
            &&& now.at(a.0 as int) == a.1
            &&& now.at(b.0 as int) == b.1
            &&& now.at(c.0 as int) == c.1
            &&& forall|q: int| q != a.0 && q != b.0 && q != c.0 ==> #[trigger] now.at(q) == regs.now(addr, s).at(q)
        }),
{
    let t = writing_three(s, addr, a, b, c).0;
    let (s1, e1) = s.write_reg(addr, a.0, a.1);
    if e1 is Err {
        assert(t == s1);
        written_register_is_held(regs, addr, s, a.0, a.1);
    } else {
        let (s2, e2) = s1.write_reg(addr, b.0, b.1);
        if e2 is Err {
            assert(t == s2);
            written_register_is_held(regs, addr, s1, b.0, b.1);
        } else {
            assert(t == s2.write_reg(addr, c.0, c.1).0);
            written_register_is_held(regs, addr, s2, c.0, c.1);
            written_register_is_held(regs, addr, s1, b.0, b.1);
            written_register_is_held(regs, addr, s, a.0, a.1);
        }
    }
}

/// The chip is taken for an AXP2101 exactly where bits 7:6 and 3:0 of
/// register 3 are those of 4Ah, whatever its version.
pub proof fn device_by_signature(regs: Registers, addr: u8, s: Session)
    requires
        regs.answers(addr, device_check(s, addr).0),
    ensures
        ({
            let id = regs.now(addr, s).at(3);
            device_check(s, addr).1 == (if id as int / 64 == 1 && id as int % 16 == 0x0A {
                Ok(id)
            } else {
                Err::<u8, Error<Fault>>(Error::DeviceNotFound)
            })
        }),
{
    assert(device_check(s, addr).0 == s.read_reg(addr, 3).0);
    read_gives_the_register(regs, addr, s, 3);
    let id = regs.now(addr, s).at(3);
    assert((id & 0xCFu8 == 0x4A) == (id / 64 == 1 && id % 16 == 0x0A)) by (bit_vector);
}

/// A voltage set on an LDO is counted in 100 mV from 500 mV on in its
/// register; outside 500 to 3500 mV it is refused and nothing is sent.
pub proof fn ldo_voltage_is_held(regs: Registers, addr: u8, s: Session, r: u8, mv: u16)
    requires
        500 <= mv <= 3500,
        regs.answers(addr, ldo_setting(s, addr, r, mv).0),
    ensures
        regs.answers(addr, s),
        ldo_setting(s, addr, r, mv).1 is Ok,
        regs.now(addr, ldo_setting(s, addr, r, mv).0).at(r as int) == (mv - 500) / 100,
        forall|q: int| q != r ==> #[trigger] regs.now(addr, ldo_setting(s, addr, r, mv).0).at(q) == regs.now(addr, s).at(q),
{
    written_register_is_held(regs, addr, s, r, ldo_code(mv as int));
}

/// A voltage outside the range of the LDOs is refused with nothing sent.
pub proof fn ldo_voltage_is_refused(s: Session, addr: u8, r: u8, mv: u16)
    requires
        mv < 500 || mv > 3500,
    ensures
        ldo_setting(s, addr, r, mv) == (s, Err::<(), Error<Fault>>(Error::InvalidValue)),
{
}

/// The boot voltages: ALDO1 to ALDO3 (92h to 94h) at 3.3 V, ALDO4 (95h) at
/// 1.8 V, BLDO1 (96h) at 1.2 V, BLDO2 (97h) at 2.8 V, and no other register
/// touched.
pub proof fn boot_voltages_are_held(regs: Registers, addr: u8, s: Session)
    requires
        regs.answers(addr, boot_voltages(s, addr).0),
    ensures
        regs.answers(addr, s),
        boot_voltages(s, addr).1 is Ok,
        ({
            let now = regs.now(addr, boot_voltages(s, addr).0);
            let mv = |r: int| 500 + 100 * now.at(r);
            &&& mv(0x92) == 3300 && mv(0x93) == 3300 && mv(0x94) == 3300
            &&& mv(0x95) == 1800 && mv(0x96) == 1200 && mv(0x97) == 2800
            &&& forall|q: int| !(0x92 <= q <= 0x97) ==> #[trigger] now.at(q) == regs.now(addr, s).at(q)
        }),
{
    let t = boot_voltages(s, addr).0;
    let (s1, e1) = ldo_setting(s, addr, 0x92, 3300);
    if e1 is Err {
        assert(t == s1);
    } else {
        let (s2, e2) = ldo_setting(s1, addr, 0x93, 3300);
        if e2 is Err {
            assert(t == s2);
        } else {
            let (s3, e3) = ldo_setting(s2, addr, 0x94, 3300);
            if e3 is Err {
                assert(t == s3);
            } else {
                let (s4, e4) = ldo_setting(s3, addr, 0x95, 1800);
                if e4 is Err {
                    assert(t == s4);
                } else {
                    let (s5, e5) = ldo_setting(s4, addr, 0x96, 1200);
                    if e5 is Err {
                        assert(t == s5);
                    } else {
                        assert(t == ldo_setting(s5, addr, 0x97, 2800).0);
                        ldo_voltage_is_held(regs, addr, s5, 0x97, 2800);
                    }
                    ldo_voltage_is_held(regs, addr, s4, 0x96, 1200);
                }
                ldo_voltage_is_held(regs, addr, s3, 0x95, 1800);
            }
            ldo_voltage_is_held(regs, addr, s2, 0x94, 3300);
        }
        ldo_voltage_is_held(regs, addr, s1, 0x93, 3300);
    }
    ldo_voltage_is_held(regs, addr, s, 0x92, 3300);
}

/// Battery monitoring: bit 0 of the ADC enables (30h) and bit 3 (the fuel
/// gauge) of register 18h are set, nothing else changes.
pub proof fn monitor_is_on(regs: Registers, addr: u8, s: Session)
    requires
        regs.answers(addr, monitor_setup(s, addr).0),
    ensures
        regs.answers(addr, s),
        monitor_setup(s, addr).1 is Ok,
        ({
            let (before, now) = (regs.now(addr, s), regs.now(addr, monitor_setup(s, addr).0));
            &&& now.at(0x30) & 0x01 == 0x01 && now.at(0x30) & 0xFE == before.at(0x30) & 0xFE
            &&& now.at(0x18) & 0x08 == 0x08 && now.at(0x18) & 0xF7 == before.at(0x18) & 0xF7
            &&& forall|q: int| q != 0x30 && q != 0x18 ==> #[trigger] now.at(q) == before.at(q)
        }),
{
    let t = monitor_setup(s, addr).0;
    let (s1, e1) = switching(s, addr, 0x30, 0x01, true);
    if e1 is Err {
        assert(t == s1);
        switched_bits(regs, addr, s, 0x30, 0x01, true);
    } else {
        assert(t == switching(s1, addr, 0x18, 0x08, true).0);
        switched_bits(regs, addr, s1, 0x18, 0x08, true);
        switched_bits(regs, addr, s, 0x30, 0x01, true);
    }
    single_bits();
}

/// An initialised chip: the boot voltages, all six boot rails enabled
/// (90h), all five ADC channels (30h) and the fuel gauge (bit 3 of 18h).
pub proof fn initialised_chip(regs: Registers, addr: u8, s: Session)
    requires
        regs.answers(addr, initialising(s, addr).0),
        initialising(s, addr).1 is Ok,
    ensures
        ({
            let now = regs.now(addr, initialising(s, addr).0);
            let mv = |r: int| 500 + 100 * now.at(r);
            &&& initialising(s, addr).1 == Ok::<u8, Error<Fault>>(regs.now(addr, s).at(3))
            &&& mv(0x92) == 3300 && mv(0x93) == 3300 && mv(0x94) == 3300
            &&& mv(0x95) == 1800 && mv(0x96) == 1200 && mv(0x97) == 2800
            &&& now.at(0x90) == 0x3F
            &&& now.at(0x30) == 0x1F
            &&& now.at(0x18) & 0x08 == 0x08
        }),
{
    let t = initialising(s, addr).0;
    let (s1, e1) = device_check(s, addr);
    let (s2, e2) = boot_voltages(s1, addr);
    let (s3, e3) = s2.write_reg(addr, 0x90, 0x3F);
    let (s4, e4) = s3.write_reg(addr, 0x30, 0x1F);
    assert(e1 is Ok && e2 is Ok && e3 is Ok && e4 is Ok);
    assert(t == monitor_setup(s4, addr).0);
    monitor_is_on(regs, addr, s4);
    written_register_is_held(regs, addr, s3, 0x30, 0x1F);
    written_register_is_held(regs, addr, s2, 0x90, 0x3F);
    boot_voltages_are_held(regs, addr, s1);
    assert(s1 == s.read_reg(addr, 3).0);
    read_gives_the_register(regs, addr, s, 3);
    device_by_signature(regs, addr, s);
    let v = regs.now(addr, t).at(0x30);
    assert(v & 0x01 == 0x01 && v & 0xFE == 0x1Fu8 & 0xFE ==> v == 0x1F) by (bit_vector);
}

/// A converter in two ranges takes the highest voltage it has that is not
/// above the request: 10 mV steps from 500 to 1200 mV, 20 mV steps from
/// 1220 mV on. A request outside is held to the range.
pub proof fn two_range_voltage_is_held(mv: int, hi: int)
    requires
        1220 <= hi <= 1840,
        hi % 20 == 0,
    ensures
        ({
            let n = two_range_code(mv, hi) as int;
            &&& mv <= 500 ==> n == 0
            &&& 500 <= mv < 1210 ==> n <= 70 && 500 + 10 * n <= mv < 510 + 10 * n
            &&& 1200 <= mv < 1220 ==> n == 70
            &&& 1220 <= mv <= hi ==> n >= 71 && 1220 + 20 * (n - 71) <= mv < 1240 + 20 * (n - 71)
            &&& mv >= hi ==> 1220 + 20 * (n - 71) == hi
        }),
{
}

/// A converter code in two ranges counts 10 mV from 500 mV on up to code
/// 70, and 20 mV from 1220 mV on from code 71 on.
pub proof fn two_range_voltage_by_number(n: int)
    requires
        0 <= n < 127,
    ensures
        n == 0 ==> two_range_mv(n) == 500,
        n < 70 ==> two_range_mv(n + 1) == two_range_mv(n) + 10,
        n == 71 ==> two_range_mv(n) == 1220,
        n >= 71 ==> two_range_mv(n + 1) == two_range_mv(n) + 20,
{
}

} // verus!
