//! Sessions between the drivers and the chips.
//!
//! No driver of this crate owns an interface. Each driver method runs
//! against a [`Bus`]: the requests put on the wire so far, and the
//! replies that came back. The n-th request is answered by the n-th
//! reply, so a method is a function of its arguments and of the replies
//! alone.
//!
//! Where a method needs a reply that has not arrived, the transfer ends
//! in [`Fault::Pending`] and the session is stalled: nothing more is put
//! on the wire. The owner of the interface then performs the last
//! request of the session, adds its reply and runs the method again on a
//! session with the same replies and no requests. A run that ends on a
//! session that is not stalled is the final one; what a stalled run
//! returned is dropped.

use vstd::prelude::*;

verus! {

/// Why a transfer has no data.
#[derive(Debug, Clone, Copy, PartialEq, Eq, Structural)]
pub enum Fault {
    /// The reply has not arrived: the session is stalled.
    Pending,
    /// The interface reported an error, with a code of the owner's
    /// choosing.
    Failed(u32),
}

/// One request to the owner of the interface.
#[derive(Debug)]
pub enum Request {
    /// I2C: write `out` to the chip at `addr`.
    Write { addr: u8, out: Vec<u8> },
    /// I2C: write `out` to the chip at `addr`, then read `len` bytes
    /// after a repeated start.
    WriteRead { addr: u8, out: Vec<u8>, len: usize },
    /// SPI: in one chip-select frame, clock `out` out, then `len` bytes
    /// in.
    Frame { out: Vec<u8>, len: usize },
    /// GPIO: poll the chip's BUSY line until it reads low, `polls` times
    /// at most. The reply is one byte: 0 if the line went low, anything
    /// else if it never did.
    AwaitLow { polls: u32 },
}

/// The owner's answer to one request.
#[derive(Debug)]
pub enum Reply {
    /// The transfer was done; the bytes that were read.
    Data(Vec<u8>),
    /// The transfer failed.
    Failed(u32),
}

/// What a [`Request`] asks for.
pub ghost enum Req {
    Write { addr: u8, out: Seq<u8> },
    WriteRead { addr: u8, out: Seq<u8>, len: nat },
    Frame { out: Seq<u8>, len: nat },
    AwaitLow { polls: u32 },
}

/// What a [`Reply`] says.
pub ghost enum Rep {
    Data(Seq<u8>),
    Failed(u32),
}

impl View for Request {
    type V = Req;

    open spec fn view(&self) -> Req {
        match *self {
            Request::Write { addr, out } => Req::Write { addr, out: out@ },
            Request::WriteRead { addr, out, len } => Req::WriteRead { addr, out: out@, len: len as nat },
            Request::Frame { out, len } => Req::Frame { out: out@, len: len as nat },
            Request::AwaitLow { polls } => Req::AwaitLow { polls },
        }
    }
}

impl View for Reply {
    type V = Rep;

    open spec fn view(&self) -> Rep {
        match *self {
            Reply::Data(d) => Rep::Data(d@),
            Reply::Failed(code) => Rep::Failed(code),
        }
    }
}

/// The first `len` bytes of `data`, filled up with zeros.
pub open spec fn fit(data: Seq<u8>, len: nat) -> Seq<u8> {
    Seq::new(len, |i: int| if i < data.len() { data[i] } else { 0u8 })
}

/// The contents of a transfer's result.
pub open spec fn bytes_of(r: Result<Vec<u8>, Fault>) -> Result<Seq<u8>, Fault> {
    match r {
        Ok(v) => Ok(v@),
        Err(f) => Err(f),
    }
}

/// `buf` with its first bytes replaced by `data`.
pub open spec fn overlay(buf: Seq<u8>, data: Seq<u8>) -> Seq<u8> {
    data + buf.skip(data.len() as int)
}

/// A step of a register program: what [`Bus::run`] carries out.
#[derive(Debug, Clone, Copy, PartialEq, Eq, Structural)]
pub enum Op {
    /// Write `val` to register `reg`.
    Put { reg: u8, val: u8 },
    /// Read register `reg`, clear the bits in `clear`, set the bits in
    /// `set`, write it back.
    Update { reg: u8, clear: u8, set: u8 },
}

/// The state of a session: the requests sent and the replies there are.
pub ghost struct Session {
    pub sent: Seq<Req>,
    pub replies: Seq<Rep>,
}

impl Session {
    /// A request is out that has no reply.
    pub open spec fn stalled(self) -> bool {
        self.sent.len() > self.replies.len()
    }

    /// The session once `q` is sent; a stalled session sends nothing.
    pub open spec fn after(self, q: Req) -> Session {
        if self.stalled() {
            self
        } else {
            Session { sent: self.sent.push(q), replies: self.replies }
        }
    }

    /// What the next request gets that reads `len` bytes.
    pub open spec fn answer(self, len: nat) -> Result<Seq<u8>, Fault> {
        if self.sent.len() < self.replies.len() {
            match self.replies[self.sent.len() as int] {
                Rep::Data(d) => Ok(fit(d, len)),
                Rep::Failed(code) => Err(Fault::Failed(code)),
            }
        } else {
            Err(Fault::Pending)
        }
    }

    /// What the next request gets that reads nothing.
    pub open spec fn done(self) -> Result<(), Fault> {
        match self.answer(0) {
            Ok(_) => Ok(()),
            Err(f) => Err(f),
        }
    }

    /// An I2C write.
    pub open spec fn write(self, addr: u8, out: Seq<u8>) -> (Session, Result<(), Fault>) {
        (self.after(Req::Write { addr, out }), self.done())
    }

    /// A write of one register.
    pub open spec fn write_reg(self, addr: u8, reg: u8, val: u8) -> (Session, Result<(), Fault>) {
        self.write(addr, seq![reg, val])
    }

    /// A read of `len` consecutive registers.
    pub open spec fn read_regs(self, addr: u8, reg: u8, len: nat) -> (Session, Result<Seq<u8>, Fault>) {
        (self.after(Req::WriteRead { addr, out: seq![reg], len }), self.answer(len))
    }

    /// A read of one register.
    pub open spec fn read_reg(self, addr: u8, reg: u8) -> (Session, Result<u8, Fault>) {
        let (s, r) = self.read_regs(addr, reg, 1);
        (s, match r {
            Ok(d) => Ok(d[0]),
            Err(f) => Err(f),
        })
    }

    /// A read of one register and a write of `f` of what was read.
    pub open spec fn modify_reg(self, addr: u8, reg: u8, f: spec_fn(u8) -> u8) -> (Session, Result<(), Fault>) {
        let (s, r) = self.read_reg(addr, reg);
        match r {
            Ok(v) => s.write_reg(addr, reg, f(v)),
            Err(e) => (s, Err(e)),
        }
    }

    /// A read-modify-write of one register: the bits in `clear` are
    /// cleared, then those in `set` are set, all others kept.
    pub open spec fn update_reg(self, addr: u8, reg: u8, clear: u8, set: u8) -> (Session, Result<(), Fault>) {
        self.modify_reg(addr, reg, |v: u8| merged(v, clear, set))
    }

    /// One step of a register program.
    pub open spec fn step(self, addr: u8, op: Op) -> (Session, Result<(), Fault>) {
        match op {
            Op::Put { reg, val } => self.write_reg(addr, reg, val),
            Op::Update { reg, clear, set } => self.update_reg(addr, reg, clear, set),
        }
    }

    /// A register program: the steps in order, up to the first that
    /// fails.
    pub open spec fn run(self, addr: u8, ops: Seq<Op>) -> (Session, Result<(), Fault>)
        decreases ops.len(),
    {
        if ops.len() == 0 {
            (self, Ok(()))
        } else {
            let (s, r) = self.step(addr, ops[0]);
            match r {
                Ok(_) => s.run(addr, ops.skip(1)),
                Err(f) => (s, Err(f)),
            }
        }
    }

    /// A table of (register, value) writes, in order, up to the first
    /// that fails.
    pub open spec fn write_regs(self, addr: u8, table: Seq<(u8, u8)>) -> (Session, Result<(), Fault>)
        decreases table.len(),
    {
        if table.len() == 0 {
            (self, Ok(()))
        } else {
            let (s, r) = self.write_reg(addr, table[0].0, table[0].1);
            match r {
                Ok(_) => s.write_regs(addr, table.skip(1)),
                Err(f) => (s, Err(f)),
            }
        }
    }

    /// One SPI frame.
    pub open spec fn frame(self, out: Seq<u8>, len: nat) -> (Session, Result<Seq<u8>, Fault>) {
        (self.after(Req::Frame { out, len }), self.answer(len))
    }

    /// One SPI frame that reads nothing.
    pub open spec fn frame_out(self, out: Seq<u8>) -> (Session, Result<(), Fault>) {
        (self.after(Req::Frame { out, len: 0 }), self.done())
    }
}

/// One exchange after another: the second is made, on what the first
/// gave, only if the first succeeded.
pub open spec fn chain<T, U, E>(
    first: (Session, Result<T, E>),
    second: spec_fn(Session, T) -> (Session, Result<U, E>),
) -> (Session, Result<U, E>) {
    match first.1 {
        Ok(v) => second(first.0, v),
        Err(e) => (first.0, Err(e)),
    }
}

/// `old` with the bits in `clear` cleared and those in `set` set.
pub open spec fn merged(old: u8, clear: u8, set: u8) -> u8 {
    (old & !clear) | set
}

/// A session with the chips on one interface.
#[derive(Debug)]
pub struct Bus {
    replies: Vec<Reply>,
    sent: Vec<Request>,
}

impl View for Bus {
    type V = Session;

    closed spec fn view(&self) -> Session {
        Session {
            sent: self.sent@.map_values(|q: Request| q@),
            replies: self.replies@.map_values(|r: Reply| r@),
        }
    }
}

/// `data` cut or zero-filled to `len` bytes.
fn fitted(data: &Vec<u8>, len: usize) -> (r: Vec<u8>)
    ensures
        r@ == fit(data@, len as nat),
{
    let mut v: Vec<u8> = Vec::new();
    let mut i: usize = 0;
    while i < len
        invariant
            i <= len,
            v@ == fit(data@, len as nat).take(i as int),
        decreases len - i,
    {
        let b: u8 = if i < data.len() { data[i] } else { 0 };
        v.push(b);
        i = i + 1;
        assert(v@ =~= fit(data@, len as nat).take(i as int));
    }
    assert(v@ =~= fit(data@, len as nat));
    v
}

impl Bus {
    /// A session with no reply.
    pub fn new() -> (bus: Bus)
        ensures
            bus@ == (Session { sent: Seq::empty(), replies: Seq::empty() }),
    {
        let bus = Bus { replies: Vec::new(), sent: Vec::new() };
        assert(bus@.sent =~= Seq::empty());
        assert(bus@.replies =~= Seq::empty());
        bus
    }

    /// Add the reply to the first request that has none.
    pub fn reply(&mut self, reply: Reply)
        ensures
            final(self)@ == (Session { sent: old(self)@.sent, replies: old(self)@.replies.push(reply@) }),
    {
        self.replies.push(reply);
        assert(self@.replies =~= old(self)@.replies.push(reply@));
    }

    /// Forget the requests: the next run starts over on the same
    /// replies.
    pub fn rewind(&mut self)
        ensures
            final(self)@ == (Session { sent: Seq::empty(), replies: old(self)@.replies }),
    {
        self.sent = Vec::new();
        assert(self@.sent =~= Seq::empty());
    }

    /// Whether the last request still waits for its reply.
    pub fn is_stalled(&self) -> (r: bool)
        ensures
            r == self@.stalled(),
    {
        self.sent.len() > self.replies.len()
    }

    /// The number of requests sent.
    pub fn sent_len(&self) -> (n: usize)
        ensures
            n == self@.sent.len(),
    {
        self.sent.len()
    }

    /// The `i`-th request.
    pub fn request(&self, i: usize) -> (q: &Request)
        requires
            i < self@.sent.len(),
        ensures
            q@ == self@.sent[i as int],
    {
        &self.sent[i]
    }

    /// Send `q`, which reads `len` bytes.
    fn transfer(&mut self, q: Request, len: usize) -> (r: Result<Vec<u8>, Fault>)
        ensures
            final(self)@ == old(self)@.after(q@),
            bytes_of(r) == old(self)@.answer(len as nat),
    {
        if self.sent.len() > self.replies.len() {
            return Err(Fault::Pending);
        }
        let n: usize = self.sent.len();
        self.sent.push(q);
        assert(self@.sent =~= old(self)@.sent.push(q@));
        if n < self.replies.len() {
            assert(self@.replies[n as int] == self.replies@[n as int]@);
            match &self.replies[n] {
                Reply::Data(d) => Ok(fitted(d, len)),
                Reply::Failed(code) => Err(Fault::Failed(*code)),
            }
        } else {
            Err(Fault::Pending)
        }
    }

    /// I2C: write `out` to the chip at `addr`.
    pub fn write(&mut self, addr: u8, out: &[u8]) -> (r: Result<(), Fault>)
        ensures
            (final(self)@, r) == old(self)@.write(addr, out@),
    {
        match self.transfer(Request::Write { addr, out: vstd::slice::slice_to_vec(out) }, 0) {
            Ok(_) => Ok(()),
            Err(f) => Err(f),
        }
    }

    /// Write one register.
    pub fn write_reg(&mut self, addr: u8, reg: u8, val: u8) -> (r: Result<(), Fault>)
        ensures
            (final(self)@, r) == old(self)@.write_reg(addr, reg, val),
    {
        let out: [u8; 2] = [reg, val];
        assert(out@ =~= seq![reg, val]);
        self.write(addr, &out)
    }

    /// Read `len` consecutive registers.
    pub fn read_regs(&mut self, addr: u8, reg: u8, len: usize) -> (r: Result<Vec<u8>, Fault>)
        ensures
            (final(self)@, bytes_of(r)) == old(self)@.read_regs(addr, reg, len as nat),
            r matches Ok(v) ==> v@.len() == len,
    {
        let out: Vec<u8> = vec![reg];
        assert(out@ =~= seq![reg]);
        self.transfer(Request::WriteRead { addr, out, len }, len)
    }

    /// Read `n` bytes from `reg` into the start of `buf`. On a fault
    /// `buf` stays as it was.
    pub fn read_into(&mut self, addr: u8, reg: u8, buf: &mut [u8], n: usize) -> (r: Result<(), Fault>)
        requires
            n <= old(buf)@.len(),
        ensures
            final(self)@ == old(self)@.read_regs(addr, reg, n as nat).0,
            match old(self)@.answer(n as nat) {
                Ok(d) => r == Ok::<(), Fault>(()) && final(buf)@ == overlay(old(buf)@, d),
                Err(f) => r == Err::<(), Fault>(f) && final(buf)@ == old(buf)@,
            },
    {
        let v: Vec<u8> = match self.read_regs(addr, reg, n) {
            Ok(v) => v,
            Err(f) => return Err(f),
        };
        let mut i: usize = 0;
        while i < n
            invariant
                i <= n,
                n == v@.len(),
                n <= buf@.len(),
                buf@.len() == old(buf)@.len(),
                forall|j: int| 0 <= j < i ==> buf@[j] == v@[j],
                forall|j: int| i <= j < buf@.len() ==> buf@[j] == old(buf)@[j],
            decreases n - i,
        {
            buf[i] = v[i];
            i = i + 1;
        }
        assert(buf@ =~= overlay(old(buf)@, v@));
        Ok(())
    }

    /// Read one register.
    pub fn read_reg(&mut self, addr: u8, reg: u8) -> (r: Result<u8, Fault>)
        ensures
            (final(self)@, r) == old(self)@.read_reg(addr, reg),
    {
        match self.read_regs(addr, reg, 1) {
            Ok(v) => Ok(v[0]),
            Err(f) => Err(f),
        }
    }

    /// Clear the bits in `clear`, then set the bits in `set`, of one
    /// register.
    pub fn update_reg(&mut self, addr: u8, reg: u8, clear: u8, set: u8) -> (r: Result<(), Fault>)
        ensures
            (final(self)@, r) == old(self)@.update_reg(addr, reg, clear, set),
    {
        let v: u8 = match self.read_reg(addr, reg) {
            Ok(v) => v,
            Err(f) => return Err(f),
        };
        self.write_reg(addr, reg, (v & !clear) | set)
    }

    /// Run a register program: its steps in order, up to the first that
    /// fails.
    pub fn run(&mut self, addr: u8, ops: &[Op]) -> (r: Result<(), Fault>)
        ensures
            (final(self)@, r) == old(self)@.run(addr, ops@),
    {
        let mut i: usize = 0;
        assert(ops@.skip(0) =~= ops@);
        while i < ops.len()
            invariant
                i <= ops@.len(),
                old(self)@.run(addr, ops@) == self@.run(addr, ops@.skip(i as int)),
            decreases ops@.len() - i,
        {
            assert(ops@.skip(i as int).skip(1) =~= ops@.skip(i + 1));
            let r: Result<(), Fault> = match ops[i] {
                Op::Put { reg, val } => self.write_reg(addr, reg, val),
                Op::Update { reg, clear, set } => self.update_reg(addr, reg, clear, set),
            };
            if r.is_err() {
                return r;
            }
            i = i + 1;
        }
        Ok(())
    }

    /// I2C: write a table of (register, value) pairs.
    pub fn write_regs(&mut self, addr: u8, table: &[(u8, u8)]) -> (r: Result<(), Fault>)
        ensures
            (final(self)@, r) == old(self)@.write_regs(addr, table@),
    {
        let mut i: usize = 0;
        assert(table@.skip(0) =~= table@);
        while i < table.len()
            invariant
                i <= table@.len(),
                old(self)@.write_regs(addr, table@) == self@.write_regs(addr, table@.skip(i as int)),
            decreases table@.len() - i,
        {
            assert(table@.skip(i as int).skip(1) =~= table@.skip(i + 1));
            self.write_reg(addr, table[i].0, table[i].1)?;
            i = i + 1;
        }
        Ok(())
    }

    /// SPI: clock `out` out and `len` bytes in, in one frame.
    pub fn frame(&mut self, out: &[u8], len: usize) -> (r: Result<Vec<u8>, Fault>)
        ensures
            (final(self)@, bytes_of(r)) == old(self)@.frame(out@, len as nat),
            r matches Ok(v) ==> v@.len() == len,
    {
        self.transfer(Request::Frame { out: vstd::slice::slice_to_vec(out), len }, len)
    }

    /// SPI: clock `out` out in one frame.
    pub fn frame_out(&mut self, out: &[u8]) -> (r: Result<(), Fault>)
        ensures
            (final(self)@, r) == old(self)@.frame_out(out@),
    {
        match self.transfer(Request::Frame { out: vstd::slice::slice_to_vec(out), len: 0 }, 0) {
            Ok(_) => Ok(()),
            Err(f) => Err(f),
        }
    }

    /// GPIO: poll BUSY up to `polls` times. `Ok(true)` once it reads
    /// low, `Ok(false)` if it never does.
    pub fn await_low(&mut self, polls: u32) -> (r: Result<bool, Fault>)
        ensures
            final(self)@ == old(self)@.after(Req::AwaitLow { polls }),
            r == (match old(self)@.answer(1) {
                Ok(d) => Ok::<bool, Fault>(d[0] == 0),
                Err(f) => Err(f),
            }),
    {
        match self.transfer(Request::AwaitLow { polls }, 1) {
            Ok(v) => Ok(v[0] == 0),
            Err(f) => Err(f),
        }
    }
}

// ---- Register bits ----------------------------------------------------------

/// A read-modify-write keeps every bit outside its masks, sets the bits
/// to set, clears the others of its mask, and done twice is done once.
pub proof fn merged_touches_only_its_bits(v: u8, clear: u8, set: u8)
    ensures
        merged(v, clear, set) & !(clear | set) == v & !(clear | set),
        merged(v, clear, set) & set == set,
        merged(v, clear, set) & (clear & !set) == 0,
        merged(merged(v, clear, set), clear, set) == merged(v, clear, set),
{
    assert(((v & !clear) | set) & !(clear | set) == v & !(clear | set)) by (bit_vector);
    assert(((v & !clear) | set) & set == set) by (bit_vector);
    assert(((v & !clear) | set) & (clear & !set) == 0) by (bit_vector);
    assert(((((v & !clear) | set) & !clear) | set) == (v & !clear) | set) by (bit_vector);
}

} // verus!
