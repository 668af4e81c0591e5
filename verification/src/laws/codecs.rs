//! The two audio converters.

use vstd::prelude::*;
use crate::bus::{Fault, Session};
use crate::chip::{read_gives_the_register, Registers};
use crate::es7210::MicGain;
use crate::es8311::{dumping, ids_reading};
use crate::{es7210, es8311};

verus! {

/// A gain in dB.
pub open spec fn gain_db(x: MicGain) -> int {
    match x {
        MicGain::Db0 => 0,
        MicGain::Db3 => 3,
        MicGain::Db6 => 6,
        MicGain::Db9 => 9,
        MicGain::Db12 => 12,
        MicGain::Db15 => 15,
        MicGain::Db18 => 18,
        MicGain::Db21 => 21,
        MicGain::Db24 => 24,
        MicGain::Db27 => 27,
        MicGain::Db30 => 30,
        MicGain::Db33 => 33,
    }
}

/// The gain code counts 3 dB.
pub proof fn gain_by_steps(x: MicGain)
    ensures
        3 * x.code() == gain_db(x),
{
}

/// What configures the codec, register by register.
pub proof fn es8311_configure_registers()
    ensures
        es8311::CONFIGURE@ == seq![
            (0x00u8, 0x00u8), (0x00u8, 0x80u8), (0x01u8, 0x3Fu8), (0x02u8, 0x00u8), (0x03u8, 0x10u8),
            (0x04u8, 0x10u8), (0x05u8, 0x00u8), (0x06u8, 0x03u8), (0x07u8, 0x00u8), (0x08u8, 0xFFu8),
            (0x09u8, 0x0Cu8), (0x0Au8, 0x0Cu8), (0x0Du8, 0x01u8), (0x0Eu8, 0x02u8), (0x12u8, 0x00u8),
            (0x13u8, 0x10u8), (0x14u8, 0x1Au8), (0x1Cu8, 0x6Au8), (0x37u8, 0x08u8)
        ],
{
    assert(es8311::CONFIGURE@ =~= seq![
        (0x00u8, 0x00u8), (0x00u8, 0x80u8), (0x01u8, 0x3Fu8), (0x02u8, 0x00u8), (0x03u8, 0x10u8),
            (0x04u8, 0x10u8), (0x05u8, 0x00u8), (0x06u8, 0x03u8), (0x07u8, 0x00u8), (0x08u8, 0xFFu8),
            (0x09u8, 0x0Cu8), (0x0Au8, 0x0Cu8), (0x0Du8, 0x01u8), (0x0Eu8, 0x02u8), (0x12u8, 0x00u8),
            (0x13u8, 0x10u8), (0x14u8, 0x1Au8), (0x1Cu8, 0x6Au8), (0x37u8, 0x08u8)
    ]);
}

/// What powers the codec down, register by register.
pub proof fn es8311_power_down_registers()
    ensures
        es8311::POWER_DOWN@ == seq![
            (0x32u8, 0x00u8), (0x17u8, 0x00u8), (0x0Eu8, 0xFFu8), (0x12u8, 0x02u8), (0x14u8, 0x00u8),
            (0x0Du8, 0xFAu8), (0x15u8, 0x00u8), (0x37u8, 0x08u8), (0x45u8, 0x01u8)
        ],
{
    assert(es8311::POWER_DOWN@ =~= seq![
        (0x32u8, 0x00u8), (0x17u8, 0x00u8), (0x0Eu8, 0xFFu8), (0x12u8, 0x02u8), (0x14u8, 0x00u8),
            (0x0Du8, 0xFAu8), (0x15u8, 0x00u8), (0x37u8, 0x08u8), (0x45u8, 0x01u8)
    ]);
}

/// What configures the microphone converter, register by register.
pub proof fn es7210_configure_registers()
    ensures
        es7210::CONFIGURE@ == seq![
            (0x00u8, 0x32u8), (0x09u8, 0x30u8), (0x0Au8, 0x30u8), (0x23u8, 0x2Au8), (0x22u8, 0x0Au8),
            (0x21u8, 0x2Au8), (0x20u8, 0x0Au8), (0x11u8, 0x60u8), (0x12u8, 0x00u8), (0x40u8, 0xC3u8),
            (0x41u8, 0x70u8), (0x42u8, 0x00u8), (0x43u8, 0x1Au8), (0x44u8, 0x1Au8), (0x45u8, 0x00u8),
            (0x46u8, 0x00u8), (0x47u8, 0x08u8), (0x48u8, 0x08u8), (0x49u8, 0xFFu8), (0x4Au8, 0xFFu8),
            (0x07u8, 0x20u8), (0x02u8, 0xC1u8), (0x04u8, 0x01u8), (0x05u8, 0x00u8), (0x06u8, 0x04u8),
            (0x4Bu8, 0x0Fu8), (0x4Cu8, 0xFFu8), (0x1Bu8, 0xBFu8), (0x1Cu8, 0xBFu8), (0x1Du8, 0xBFu8),
            (0x1Eu8, 0xBFu8)
        ],
{
    assert(es7210::CONFIGURE@ =~= seq![
        (0x00u8, 0x32u8), (0x09u8, 0x30u8), (0x0Au8, 0x30u8), (0x23u8, 0x2Au8), (0x22u8, 0x0Au8),
            (0x21u8, 0x2Au8), (0x20u8, 0x0Au8), (0x11u8, 0x60u8), (0x12u8, 0x00u8), (0x40u8, 0xC3u8),
            (0x41u8, 0x70u8), (0x42u8, 0x00u8), (0x43u8, 0x1Au8), (0x44u8, 0x1Au8), (0x45u8, 0x00u8),
            (0x46u8, 0x00u8), (0x47u8, 0x08u8), (0x48u8, 0x08u8), (0x49u8, 0xFFu8), (0x4Au8, 0xFFu8),
            (0x07u8, 0x20u8), (0x02u8, 0xC1u8), (0x04u8, 0x01u8), (0x05u8, 0x00u8), (0x06u8, 0x04u8),
            (0x4Bu8, 0x0Fu8), (0x4Cu8, 0xFFu8), (0x1Bu8, 0xBFu8), (0x1Cu8, 0xBFu8), (0x1Du8, 0xBFu8),
            (0x1Eu8, 0xBFu8)
    ]);
}

/// What powers the microphone converter down, register by register.
pub proof fn es7210_power_down_registers()
    ensures
        es7210::POWER_DOWN@ == seq![
            (0x4Bu8, 0xFFu8), (0x4Cu8, 0xFFu8), (0x41u8, 0x00u8), (0x42u8, 0x00u8), (0x40u8, 0x80u8)
        ],
{
    assert(es7210::POWER_DOWN@ =~= seq![
        (0x4Bu8, 0xFFu8), (0x4Cu8, 0xFFu8), (0x41u8, 0x00u8), (0x42u8, 0x00u8), (0x40u8, 0x80u8)
    ]);
}

/// The identity is read from FDh, FEh and FFh, in this order.
pub proof fn identity_registers(regs: Registers, s: Session)
    requires
        regs.answers(0x18, ids_reading(s).0),
    ensures
        ids_reading(s).1 == Ok::<Seq<u8>, Fault>(
            seq![regs.now(0x18, s).at(0xFD), regs.now(0x18, s).at(0xFE), regs.now(0x18, s).at(0xFF)],
        ),
{
    let t = ids_reading(s).0;
    let (s1, e1) = s.read_reg(0x18, 0xFD);
    if e1 is Err {
        assert(t == s1);
    } else {
        let (s2, e2) = s1.read_reg(0x18, 0xFE);
        if e2 is Err {
            assert(t == s2);
        } else {
            assert(t == s2.read_reg(0x18, 0xFF).0);
            read_gives_the_register(regs, 0x18, s2, 0xFF);
        }
        read_gives_the_register(regs, 0x18, s1, 0xFE);
    }
    read_gives_the_register(regs, 0x18, s, 0xFD);
}

/// A dump gives each register of the list with what it holds, in order,
/// after what was seen before.
pub proof fn dump_gives_the_registers(regs: Registers, s: Session, list: Seq<u8>, i: int, seen: Seq<(u8, u8)>)
    requires
        0 <= i <= list.len(),
        regs.answers(0x18, dumping(s, list, i, seen).0),
    ensures
        regs.answers(0x18, s),
        dumping(s, list, i, seen).1 == Ok::<Seq<(u8, u8)>, Fault>(
            seen + Seq::new((list.len() - i) as nat, |k: int| (list[i + k], regs.now(0x18, s).at(list[i + k] as int))),
        ),
    decreases list.len() - i,
{
    let now = regs.now(0x18, s);
    let all = Seq::new((list.len() - i) as nat, |k: int| (list[i + k], now.at(list[i + k] as int)));
    if i < list.len() {
        let (s1, e) = s.read_reg(0x18, list[i]);
        if e is Ok {
            let more = seen.push((list[i], e->Ok_0));
            dump_gives_the_registers(regs, s1, list, i + 1, more);
            read_gives_the_register(regs, 0x18, s, list[i]);
            let rest = Seq::new(
                (list.len() - (i + 1)) as nat,
                |k: int| (list[i + 1 + k], now.at(list[i + 1 + k] as int)),
            );
            assert(more + rest =~= seen + all);
        } else {
            read_gives_the_register(regs, 0x18, s, list[i]);
        }
    } else {
        assert(seen + all =~= seen);
    }
}

/// The registers that a dump takes: 00h to 0Ah, 0Dh, 0Eh, 12h, 13h and 32h.
pub proof fn dumped_registers(i: int)
    requires
        0 <= i < 16,
    ensures
        i <= 10 ==> es8311::DUMPED@[i] == i,
        i == 11 ==> es8311::DUMPED@[i] == 0x0D,
        i == 12 ==> es8311::DUMPED@[i] == 0x0E,
        i == 13 ==> es8311::DUMPED@[i] == 0x12,
        i == 14 ==> es8311::DUMPED@[i] == 0x13,
        i == 15 ==> es8311::DUMPED@[i] == 0x32,
{
}

} // verus!
