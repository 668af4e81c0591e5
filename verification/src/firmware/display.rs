//! Display bring-up for the CO5300 QSPI AMOLED panel, and the transfers
//! its bus makes.
//!
//! The panel is rendered in horizontal bands: the render loop walks the
//! panel in steps of [`TILE_H`] rows, draws the screen into a framebuffer
//! sized for one band and pushes it. A band is larger than one transfer
//! may be, so its pixels go out in chunks: the first starts a memory
//! write, the following ones continue it, so that the panel keeps writing
//! into the same address window.

use vstd::prelude::*;
use crate::display::co5300::{dcs, ops_view, Panel, PanelOp, CO5300, FB_BYTES, HEIGHT};
use crate::display::cmd;

verus! {

/// Tile height for partial-framebuffer rendering. Even, so panel address
/// windows stay 2-row-aligned without further rounding.
pub const TILE_H: u16 = 50;

/// Number of tiles needed to cover the panel. The last tile is short: 502
/// rows are 10 full tiles and one of 2 rows.
pub const NUM_TILES: usize = 11;

/// Framebuffer size in bytes for one full tile.
pub const FB_BYTES_PER_TILE: usize = 50 * 410 * 2;

/// DMA TX buffer capacity in bytes: 8 * 4092, the largest whole number of
/// DMA descriptors below the 32 KB that the SPI peripheral's length
/// register can count.
pub const TX_BUF_SIZE: usize = 32736;

/// SPI instruction opcode of 1-wire config/command writes.
pub const OPCODE_CTRL: u8 = 0x02;

/// SPI instruction opcode of quad 4-wire pixel writes.
pub const OPCODE_PIXEL: u8 = 0x32;

/// The number of wires that carry the data of a transfer. Instruction and
/// address always go over one.
#[derive(Debug, Clone, Copy, PartialEq, Eq, Structural)]
pub enum Wires {
    Single,
    Quad,
}

/// One half-duplex write: 8-bit instruction, 24-bit address, then the
/// bytes `start .. end` of the data at hand.
#[derive(Debug, Clone, Copy, PartialEq, Eq, Structural)]
pub struct Transfer {
    pub wires: Wires,
    pub opcode: u8,
    pub address: u32,
    pub start: usize,
    pub end: usize,
}

/// The transfer of a DCS command with `len` parameter bytes: the command
/// is the middle byte of the address.
pub fn command_transfer(command: u8, len: usize) -> (r: Transfer)
    ensures
        r == (Transfer {
            wires: Wires::Single,
            opcode: OPCODE_CTRL,
            address: (command * 256) as u32,
            start: 0,
            end: len,
        }),
{
    Transfer { wires: Wires::Single, opcode: OPCODE_CTRL, address: command as u32 * 256, start: 0, end: len }
}

/// The number of chunks of at most `capacity` bytes that `len` bytes
/// take.
pub open spec fn chunk_count(len: int, capacity: int) -> int {
    (len + capacity - 1) / capacity
}

/// Chunk `i` of a pixel write.
pub open spec fn chunk(first: bool, len: int, capacity: int, i: int) -> Transfer {
    Transfer {
        wires: Wires::Quad,
        opcode: OPCODE_PIXEL,
        address: (if first && i == 0 { cmd::RAMWR * 256 } else { cmd::RAMWRC * 256 }) as u32,
        start: (i * capacity) as usize,
        end: (if (i + 1) * capacity < len { (i + 1) * capacity } else { len }) as usize,
    }
}

/// Chunks lie within the data and none is empty: chunk `i` starts at `i *
/// capacity`.
proof fn chunk_bounds(len: int, capacity: int, i: int)
    requires
        capacity > 0,
        len >= 0,
    ensures
        0 <= i < chunk_count(len, capacity) <==> 0 <= i && i * capacity < len,
        (i + 1) * capacity == i * capacity + capacity,
        0 <= chunk_count(len, capacity),
{
    let n = chunk_count(len, capacity);
    vstd::arithmetic::div_mod::lemma_fundamental_div_mod(len + capacity - 1, capacity);
    vstd::arithmetic::div_mod::lemma_mod_bound(len + capacity - 1, capacity);
    vstd::arithmetic::div_mod::lemma_div_pos_is_pos(len + capacity - 1, capacity);
    vstd::arithmetic::mul::lemma_mul_is_commutative(capacity, n);
    // len <= n * capacity < len + capacity
    vstd::arithmetic::mul::lemma_mul_is_distributive_add_other_way(capacity, i, 1);
    if i < n {
        vstd::arithmetic::mul::lemma_mul_inequality(i + 1, n, capacity);
    } else {
        vstd::arithmetic::mul::lemma_mul_inequality(n, i, capacity);
    }
}

/// The transfers that write `len` pixel bytes over a bus that takes
/// `capacity` bytes at a time. The first is a RAMWR, or a RAMWRC if
/// `first` is false; all others are RAMWRC (continuation).
pub fn pixel_chunks(first: bool, len: usize, capacity: usize) -> (r: Vec<Transfer>)
    requires
        capacity > 0,
    ensures
        r@ == Seq::new(
            chunk_count(len as int, capacity as int) as nat,
            |i: int| chunk(first, len as int, capacity as int, i),
        ),
{
    let mut chunks: Vec<Transfer> = Vec::new();
    let mut offset: usize = 0;
    let mut is_first: bool = first;
    let ghost want = Seq::new(
        chunk_count(len as int, capacity as int) as nat,
        |i: int| chunk(first, len as int, capacity as int, i),
    );
    proof {
        chunk_bounds(len as int, capacity as int, 0);
    }
    while offset < len
        invariant
            capacity > 0,
            offset <= len,
            is_first == (first && chunks@.len() == 0),
            offset < len ==> offset == chunks@.len() * capacity,
            chunks@.len() <= want.len(),
            offset >= len ==> chunks@.len() == want.len(),
            want == Seq::new(
                chunk_count(len as int, capacity as int) as nat,
                |i: int| chunk(first, len as int, capacity as int, i),
            ),
            chunks@ == want.take(chunks@.len() as int),
        decreases len - offset,
    {
        let ghost i = chunks@.len() as int;
        proof {
            chunk_bounds(len as int, capacity as int, i);
            chunk_bounds(len as int, capacity as int, i + 1);
        }
        let n: usize = if len - offset < capacity { len - offset } else { capacity };
        let dcs_command: u8 = if is_first { cmd::RAMWR } else { cmd::RAMWRC };
        let t = Transfer {
            wires: Wires::Quad,
            opcode: OPCODE_PIXEL,
            address: dcs_command as u32 * 256,
            start: offset,
            end: offset + n,
        };
        assert(t == want[i]);
        chunks.push(t);
        assert(chunks@ =~= want.take(i + 1));
        is_first = false;
        offset = offset + n;
    }
    assert(chunks@ =~= want);
    chunks
}

/// The chunks of a pixel write carry all the data in order: the first
/// starts at 0, each starts where the one before ended, the last ends at
/// `len`; none is empty or over `capacity`.
pub proof fn chunks_carry_the_data(first: bool, len: int, capacity: int, i: int)
    requires
        0 < capacity <= usize::MAX,
        0 <= len <= usize::MAX,
        0 <= i < chunk_count(len, capacity),
    ensures
        i == 0 ==> chunk(first, len, capacity, i).start == 0,
        i > 0 ==> chunk(first, len, capacity, i).start == chunk(first, len, capacity, i - 1).end,
        i == chunk_count(len, capacity) - 1 ==> chunk(first, len, capacity, i).end == len,
        0 < chunk(first, len, capacity, i).end - chunk(first, len, capacity, i).start <= capacity,
{
    chunk_bounds(len, capacity, i);
    chunk_bounds(len, capacity, i - 1);
    chunk_bounds(len, capacity, i + 1);
    assert(0 <= i * capacity) by (nonlinear_arith)
        requires
            0 <= i,
            0 < capacity,
    ;
    if i > 0 {
        assert(0 <= (i - 1) * capacity) by (nonlinear_arith)
            requires
                0 < i,
                0 < capacity,
        ;
    }
    assert(0 * capacity == 0) by (nonlinear_arith);
}

/// What to do with the bus next.
#[derive(Debug, Clone, Copy, PartialEq, Eq, Structural)]
pub enum PipeAction {
    /// Wait until the transfer under way is done.
    Wait,
    /// Copy the bytes of a transfer to the transmit buffer and start it.
    Start(Transfer),
}

/// Waiting, where a transfer is under way.
pub open spec fn settling(pending: bool) -> Seq<PipeAction> {
    if pending { seq![PipeAction::Wait] } else { Seq::empty() }
}

/// The actions that make transfers in order and leave the last one under
/// way: each waits for the one before it.
pub open spec fn pipelined(pending: bool, transfers: Seq<Transfer>) -> Seq<PipeAction>
    decreases transfers.len(),
{
    if transfers.len() == 0 {
        Seq::empty()
    } else {
        pipelined(pending, transfers.drop_last()) + settling(pending || transfers.len() > 1) + seq![
            PipeAction::Start(transfers.last()),
        ]
    }
}

/// Whether a transfer is under way after the actions, begun with one
/// under way or not; nothing if a transfer were started during another.
pub open spec fn under_way(pending: bool, actions: Seq<PipeAction>) -> Option<bool>
    decreases actions.len(),
{
    if actions.len() == 0 {
        Some(pending)
    } else {
        match under_way(pending, actions.drop_last()) {
            None => None,
            Some(busy) => match actions.last() {
                PipeAction::Wait => Some(false),
                PipeAction::Start(_) => if busy { None } else { Some(true) },
            },
        }
    }
}

/// The actions for a DCS command with `len` parameter bytes. A command is
/// waited for, since its effect must take hold before the next operation.
/// `pending` is whether a transfer is under way; none is afterwards.
pub fn command_actions(pending: bool, command: u8, len: usize) -> (r: Vec<PipeAction>)
    ensures
        r@ == settling(pending) + seq![
            PipeAction::Start(
                Transfer {
                    wires: Wires::Single,
                    opcode: OPCODE_CTRL,
                    address: (command * 256) as u32,
                    start: 0,
                    end: len,
                },
            ),
            PipeAction::Wait,
        ],
        under_way(pending, r@) == Some(false),
{
    let mut actions: Vec<PipeAction> = Vec::new();
    if pending {
        actions.push(PipeAction::Wait);
    }
    actions.push(PipeAction::Start(command_transfer(command, len)));
    actions.push(PipeAction::Wait);
    proof {
        reveal_with_fuel(under_way, 4);
        let all = actions@;
        assert(all.drop_last().drop_last() =~= settling(pending));
        if pending {
            assert(all.drop_last().drop_last().drop_last() =~= Seq::empty());
        }
        assert(all =~= settling(pending) + seq![all[all.len() - 2], PipeAction::Wait]);
    }
    actions
}

/// The actions for `len` pixel bytes. All of them are in the transmit
/// buffer once the last is taken, so the caller may draw on while the
/// last transfer runs. `pending` is whether a transfer is under way; one
/// is afterwards, unless there were no bytes.
pub fn pixel_actions(pending: bool, first: bool, len: usize, capacity: usize) -> (r: Vec<PipeAction>)
    requires
        capacity > 0,
    ensures
        r@ == pipelined(
            pending,
            Seq::new(
                chunk_count(len as int, capacity as int) as nat,
                |i: int| chunk(first, len as int, capacity as int, i),
            ),
        ),
        under_way(pending, r@) == Some(pending || len > 0),
{
    let chunks: Vec<Transfer> = pixel_chunks(first, len, capacity);
    let mut actions: Vec<PipeAction> = Vec::new();
    let mut busy: bool = pending;
    let mut i: usize = 0;
    while i < chunks.len()
        invariant
            i <= chunks@.len(),
            busy == (pending || i > 0),
            actions@ == pipelined(pending, chunks@.take(i as int)),
        decreases chunks@.len() - i,
    {
        assert(chunks@.take(i + 1).drop_last() =~= chunks@.take(i as int));
        if busy {
            actions.push(PipeAction::Wait);
        }
        actions.push(PipeAction::Start(chunks[i]));
        busy = true;
        i = i + 1;
        assert(actions@ =~= pipelined(pending, chunks@.take(i as int)));
    }
    proof {
        assert(chunks@.take(i as int) =~= chunks@);
        one_transfer_at_a_time(pending, chunks@);
        chunk_bounds(len as int, capacity as int, 0);
    }
    actions
}

/// Pipelined transfers never overlap, and the last one is left under way.
pub proof fn one_transfer_at_a_time(pending: bool, transfers: Seq<Transfer>)
    ensures
        under_way(pending, pipelined(pending, transfers)) == Some(pending || transfers.len() > 0),
    decreases transfers.len(),
{
    if transfers.len() > 0 {
        let before = pipelined(pending, transfers.drop_last());
        one_transfer_at_a_time(pending, transfers.drop_last());
        let settled = before + settling(pending || transfers.len() > 1);
        let all = pipelined(pending, transfers);
        assert(all =~= settled.push(PipeAction::Start(transfers.last())));
        assert(all.drop_last() =~= settled);
        if pending || transfers.len() > 1 {
            assert(settled.drop_last() =~= before);
            assert(settled.last() == PipeAction::Wait);
        } else {
            assert(settled =~= before);
        }
        assert(under_way(pending, settled) == Some(false));
        assert(all.last() == PipeAction::Start(transfers.last()));
    }
}

/// A tile's pixels take two transfers.
pub proof fn tiles_take_two_transfers()
    ensures
        chunk_count(FB_BYTES_PER_TILE as int, TX_BUF_SIZE as int) == 2,
{
}

/// Row `v` of the panel lies in tile `v / TILE_H` and in no other; tiles
/// start on even rows, and the last one that any row needs is the last of
/// [`NUM_TILES`].
pub proof fn tiles_cover_the_panel(v: int, tile: int)
    requires
        0 <= v < HEIGHT,
        0 <= tile,
    ensures
        (tile * TILE_H <= v < (tile + 1) * TILE_H) == (tile == v / TILE_H as int),
        v / TILE_H as int <= NUM_TILES - 1,
        (NUM_TILES - 1) * TILE_H < HEIGHT <= NUM_TILES * TILE_H,
        (tile * TILE_H) % 2 == 0,
{
}

/// One step of the bring-up.
#[derive(Debug)]
pub enum BootStep {
    /// Perform a panel operation.
    Panel(PanelOp),
    /// Let this many milliseconds pass.
    WaitMs(u32),
}

/// What a [`BootStep`] asks for.
pub ghost enum Boot {
    Panel(Panel),
    WaitMs(u32),
}

impl View for BootStep {
    type V = Boot;

    open spec fn view(&self) -> Boot {
        match *self {
            BootStep::Panel(op) => Boot::Panel(op@),
            BootStep::WaitMs(ms) => Boot::WaitMs(ms),
        }
    }
}

/// What a list of steps asks for.
pub open spec fn steps_view(steps: Seq<BootStep>) -> Seq<Boot> {
    steps.map_values(|s: BootStep| s@)
}

/// The bring-up with the panel left dark: a short low reset pulse and a
/// settle, the configuration commands, sleep-out and its booster ramp.
pub open spec fn dark_boot(brightness: u8) -> Seq<Boot> {
    seq![
        Boot::Panel(Panel::Reset(true)),
        Boot::WaitMs(10),
        Boot::Panel(Panel::Reset(false)),
        Boot::WaitMs(10),
        Boot::Panel(Panel::Reset(true)),
        Boot::WaitMs(120),
        Boot::Panel(dcs(0xC4, seq![0x80u8])),
        Boot::Panel(dcs(cmd::PIXFMT, seq![0x55u8])),
        Boot::Panel(dcs(0x35, seq![0x00u8])),
        Boot::Panel(dcs(0x53, seq![0x20u8])),
        Boot::Panel(dcs(cmd::BRIGHTNESS, seq![brightness])),
        Boot::Panel(dcs(0x63, seq![0xFFu8])),
        Boot::Panel(dcs(cmd::SLPOUT, Seq::empty())),
        Boot::WaitMs(120),
    ]
}

/// Append panel operations to a list of steps.
fn push_ops(steps: &mut Vec<BootStep>, ops: Vec<PanelOp>)
    ensures
        steps_view(final(steps)@) == steps_view(old(steps)@) + ops_view(ops@).map_values(|p: Panel| Boot::Panel(p)),
{
    let ghost all = ops@;
    let ghost want = ops_view(all).map_values(|p: Panel| Boot::Panel(p));
    let mut rest: Vec<PanelOp> = ops;
    let mut turned: Vec<PanelOp> = Vec::new();
    while rest.len() > 0
        invariant
            rest@.len() + turned@.len() == all.len(),
            rest@ == all.take(rest@.len() as int),
            turned@ == all.skip(rest@.len() as int).reverse(),
        decreases rest@.len(),
    {
        let ghost n = rest@.len() as int;
        if let Some(op) = rest.pop() {
            turned.push(op);
        }
        assert(rest@ =~= all.take(n - 1));
        assert(turned@ =~= all.skip(n - 1).reverse());
    }
    assert(turned@ =~= all.reverse());
    assert(steps_view(steps@) =~= steps_view(old(steps)@) + want.take(0));
    while turned.len() > 0
        invariant
            turned@.len() <= all.len(),
            turned@ == all.reverse().take(turned@.len() as int),
            want == ops_view(all).map_values(|p: Panel| Boot::Panel(p)),
            steps_view(steps@) == steps_view(old(steps)@) + want.take(all.len() - turned@.len()),
        decreases turned@.len(),
    {
        let ghost n = turned@.len() as int;
        let ghost before = steps@;
        if let Some(op) = turned.pop() {
            assert(op == all[all.len() - n]);
            steps.push(BootStep::Panel(op));
            assert(steps_view(steps@) =~= steps_view(before).push(Boot::Panel(op@)));
            assert(want[all.len() - n] == Boot::Panel(op@));
        }
        assert(turned@ =~= all.reverse().take(n - 1));
        assert(steps_view(steps@) =~= steps_view(old(steps)@) + want.take(all.len() - (n - 1)));
    }
    assert(want.take(all.len() as int) =~= want);
}

/// Full display init: the driver on `fb` and the steps that bring the
/// panel up, dark.
///
/// `fb` may be a full-panel buffer or any whole number of panel rows; the
/// driver clips drawing operations to the rows there are.
pub fn init_display<'fb>(fb: &'fb mut [u8], brightness: u8) -> (r: (CO5300<'fb>, Vec<BootStep>))
    requires
        old(fb)@.len() % 820 == 0,
        old(fb)@.len() <= FB_BYTES,
    ensures
        r.0.bytes() == old(fb)@,
        r.0.rows() == old(fb)@.len() / 820,
        r.0.top() == 0,
        steps_view(r.1@) == dark_boot(brightness),
{
    let mut display: CO5300<'fb> = CO5300::new(fb);
    let mut steps: Vec<BootStep> = vec![
        BootStep::Panel(display.reset_high()),
        BootStep::WaitMs(10),
        BootStep::Panel(display.reset_low()),
        BootStep::WaitMs(10),
        BootStep::Panel(display.reset_high()),
        BootStep::WaitMs(120),
    ];
    let ghost pulse = steps_view(steps@);
    assert(pulse =~= dark_boot(brightness).take(6));
    let config: Vec<PanelOp> = display.init(brightness);
    push_ops(&mut steps, config);
    let out: Vec<PanelOp> = display.wake();
    push_ops(&mut steps, out);
    let ghost before = steps@;
    steps.push(BootStep::WaitMs(120));
    assert(steps_view(steps@) =~= steps_view(before).push(Boot::WaitMs(120)));
    assert(steps_view(steps@) =~= dark_boot(brightness));
    (display, steps)
}

/// [`init_display`] plus DISPON: the panel initialized and lit, showing
/// whatever its memory holds, which at power-on is random.
pub fn init_display_lit<'fb>(fb: &'fb mut [u8], brightness: u8) -> (r: (CO5300<'fb>, Vec<BootStep>))
    requires
        old(fb)@.len() % 820 == 0,
        old(fb)@.len() <= FB_BYTES,
    ensures
        r.0.bytes() == old(fb)@,
        r.0.rows() == old(fb)@.len() / 820,
        r.0.top() == 0,
        steps_view(r.1@) == dark_boot(brightness) + seq![
            Boot::Panel(dcs(cmd::DISPON, Seq::empty())),
            Boot::WaitMs(70),
        ],
{
    let (display, mut steps) = init_display(fb, brightness);
    let on: Vec<PanelOp> = display.display_on();
    push_ops(&mut steps, on);
    let ghost before = steps@;
    steps.push(BootStep::WaitMs(70));
    assert(steps_view(steps@) =~= steps_view(before).push(Boot::WaitMs(70)));
    assert(steps_view(steps@) =~= dark_boot(brightness) + seq![
        Boot::Panel(dcs(cmd::DISPON, Seq::empty())),
        Boot::WaitMs(70),
    ]);
    (display, steps)
}

} // verus!
