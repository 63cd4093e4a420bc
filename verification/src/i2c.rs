use vstd::prelude::*;
use crate::ll::{I2C_MODE_MASTER, I2C_SCLK_DEFAULT, LlCall};

verus! {

/// The I2C0 controller, driven as a bus master through the low-level library.
pub struct I2c {}

/// The errors an I2C write can end with: none, a write always completes.
/// Its only variant holds a value of an empty type, so no value of it exists.
pub enum I2cError {
    /// Never made: `Infallible` has no values.
    Never(core::convert::Infallible),
}

/// The calls that bring I2C0 up as a master on pads `sda` and `scl`, with the
/// given pull-ups, clocked at `freq` Hz from the default source clock.
pub open spec fn i2c_master_setup(
    sda: u32,
    scl: u32,
    sda_pullup: bool,
    scl_pullup: bool,
    freq: u32,
) -> Seq<LlCall> {
    seq![
        LlCall::I2cHwEnable,
        LlCall::I2c0MasterInit,
        LlCall::I2c0SetPin(sda as i32, scl as i32, sda_pullup, scl_pullup, I2C_MODE_MASTER),
        LlCall::I2c0SetBusTiming(freq, I2C_SCLK_DEFAULT),
    ]
}

/// The first byte on the wire: the 7-bit address shifted left by one, the
/// read/write bit 0 (write). Bits shifted out of the byte are lost.
pub open spec fn address_byte(address: u8) -> u8 {
    ((address * 2) % 256) as u8
}

/// The length handed with the payload to the transmit FIFO: the payload's
/// length kept to its low byte.
pub open spec fn payload_len_byte(len: nat) -> u8 {
    (len % 256) as u8
}

/// The byte count of the write command: the address byte and the payload,
/// kept to 32 bits.
pub open spec fn write_cmd_len(len: nat) -> i32 {
    (len + 1) as i32
}

/// What a write in progress asks the firmware to do next.
#[derive(PartialEq, Eq, Debug)]
pub enum I2cAction {
    /// Make this call into the low-level library.
    Call(LlCall),
    /// Push these bytes into the transmit FIFO: `i2c_write_txfifo` on the
    /// buffer, with this length.
    WriteTxfifo(Vec<u8>, u8),
    /// Read the transmit FIFO count (`i2c_get_txfifo_cnt`) and hand the
    /// value to the next step.
    ReadTxfifoCount,
}

/// An action of a write, with the bytes of a FIFO push as a sequence.
pub enum I2cOp {
    /// A call into the low-level library.
    Call(LlCall),
    /// A push of these bytes into the transmit FIFO, with this length.
    WriteTxfifo(Seq<u8>, u8),
    /// A read of the transmit FIFO count.
    ReadTxfifoCount,
}

impl View for I2cAction {
    type V = I2cOp;

    open spec fn view(&self) -> I2cOp {
        match self {
            I2cAction::Call(call) => I2cOp::Call(*call),
            I2cAction::WriteTxfifo(buf, len) => I2cOp::WriteTxfifo(buf@, *len),
            I2cAction::ReadTxfifoCount => I2cOp::ReadTxfifoCount,
        }
    }
}

/// The actions of a list, as sequence values.
pub open spec fn ops_of(actions: Seq<I2cAction>) -> Seq<I2cOp> {
    actions.map_values(|a: I2cAction| a@)
}

/// What a write of `payload` to `address` does once the FIFOs are reset:
/// load the start command, push the address byte, push the payload, load the
/// write command (address byte and payload), load the stop command, latch the
/// configuration and start the transfer.
pub open spec fn write_program(address: u8, payload: Seq<u8>) -> Seq<I2cOp> {
    seq![
        I2cOp::Call(LlCall::I2cWriteCmd0Rstart),
        I2cOp::WriteTxfifo(seq![address_byte(address)], 1),
        I2cOp::WriteTxfifo(payload, payload_len_byte(payload.len())),
        I2cOp::Call(LlCall::I2cWriteCmd1Write(write_cmd_len(payload.len()))),
        I2cOp::Call(LlCall::I2cWriteCmd2Stop),
        I2cOp::Call(LlCall::I2cUpdate),
        I2cOp::Call(LlCall::I2cTransStart),
    ]
}

/// Where a write stands.
#[derive(PartialEq, Eq, Structural, Clone, Copy, Debug)]
pub enum WriteStage {
    /// Nothing done yet.
    Reset,
    /// The FIFOs were reset; the FIFO count they left is awaited.
    AwaitBaseline,
    /// The transfer runs; it is over when the FIFO count returns to this
    /// value.
    Poll(i32),
    /// The transfer is over.
    Done,
}

/// One write transaction of the I2C master: the values it sends and where it
/// stands. `step` decides, from what was last read, what to do next.
#[derive(Debug)]
pub struct I2cWrite {
    /// The byte that carries the address.
    pub addr_byte: u8,
    /// The bytes to send after the address.
    pub payload: Vec<u8>,
    /// The payload length handed to the transmit FIFO.
    pub payload_len: u8,
    /// The byte count of the write command.
    pub cmd_len: i32,
    /// Where the transaction stands.
    pub stage: WriteStage,
}

/// The calls that reset both FIFOs before a write, and the read of the FIFO
/// count they leave.
pub open spec fn write_prologue() -> Seq<I2cOp> {
    seq![
        I2cOp::Call(LlCall::I2cRxfifoRst),
        I2cOp::Call(LlCall::I2cTxfifoRst),
        I2cOp::ReadTxfifoCount,
    ]
}

/// The program of a transaction, from the values it holds.
pub open spec fn program_ops(w: I2cWrite) -> Seq<I2cOp> {
    seq![
        I2cOp::Call(LlCall::I2cWriteCmd0Rstart),
        I2cOp::WriteTxfifo(seq![w.addr_byte], 1),
        I2cOp::WriteTxfifo(w.payload@, w.payload_len),
        I2cOp::Call(LlCall::I2cWriteCmd1Write(w.cmd_len)),
        I2cOp::Call(LlCall::I2cWriteCmd2Stop),
        I2cOp::Call(LlCall::I2cUpdate),
        I2cOp::Call(LlCall::I2cTransStart),
    ]
}

/// The decision of one step: from the stage and the value read since the
/// last step (if any), the next stage and the actions to perform.
pub open spec fn next_step(w: I2cWrite, reading: Option<i32>) -> (WriteStage, Seq<I2cOp>) {
    match w.stage {
        WriteStage::Reset => (WriteStage::AwaitBaseline, write_prologue()),
        WriteStage::AwaitBaseline => match reading {
            Some(count) => (WriteStage::Poll(count), program_ops(w).push(I2cOp::ReadTxfifoCount)),
            None => (WriteStage::AwaitBaseline, seq![I2cOp::ReadTxfifoCount]),
        },
        WriteStage::Poll(baseline) => match reading {
            Some(count) => if count == baseline {
                (WriteStage::Done, Seq::empty())
            } else {
                (WriteStage::Poll(baseline), seq![I2cOp::ReadTxfifoCount])
            },
            None => (WriteStage::Poll(baseline), seq![I2cOp::ReadTxfifoCount]),
        },
        WriteStage::Done => (WriteStage::Done, Seq::empty()),
    }
}

impl I2c {
    /// Takes I2C0 as a master on pads `sda` and `scl`: the handle, and the
    /// calls that must be made, in order, before it is used.
    pub fn new(sda: u32, scl: u32, sda_pullup: bool, scl_pullup: bool, freq: u32) -> (r: (
        I2c,
        Vec<LlCall>,
    ))
        ensures
            r.1@ == i2c_master_setup(sda, scl, sda_pullup, scl_pullup, freq),
    {
        let calls = vec![
            LlCall::I2cHwEnable,
            LlCall::I2c0MasterInit,
            LlCall::I2c0SetPin(sda as i32, scl as i32, sda_pullup, scl_pullup, I2C_MODE_MASTER),
            LlCall::I2c0SetBusTiming(freq, I2C_SCLK_DEFAULT),
        ];
        (I2c {}, calls)
    }

    /// Begins a write of `bytes` to the device at 7-bit `address`.
    pub fn write(&self, address: u8, bytes: &[u8]) -> (txn: I2cWrite)
        requires
            bytes@.len() < usize::MAX,
        ensures
            txn.addr_byte == address_byte(address),
            txn.payload@ == bytes@,
            txn.payload_len == payload_len_byte(bytes@.len()),
            txn.cmd_len == write_cmd_len(bytes@.len()),
            txn.stage == WriteStage::Reset,
    {
        let len = bytes.len();
        let addr_byte = address << 1u8;
        assert(address << 1u8 == ((address * 2) % 256) as u8) by (bit_vector);
        let payload_len = len as u8;
        assert(len as u8 == (len % 256) as u8) by (bit_vector);
        let payload = copy_bytes(bytes);
        I2cWrite {
            addr_byte,
            payload,
            payload_len,
            cmd_len: (len + 1) as i32,
            stage: WriteStage::Reset,
        }
    }
}

/// A copy of `bytes`.
fn copy_bytes(bytes: &[u8]) -> (copy: Vec<u8>)
    ensures
        copy@ == bytes@,
{
    let mut copy: Vec<u8> = Vec::new();
    let mut i: usize = 0;
    while i < bytes.len()
        invariant
            0 <= i <= bytes@.len(),
            copy@ == bytes@.take(i as int),
        decreases bytes@.len() - i,
    {
        copy.push(bytes[i]);
        i = i + 1;
        assert(copy@ =~= bytes@.take(i as int));
    }
    assert(bytes@.take(bytes@.len() as int) =~= bytes@);
    copy
}

impl I2cWrite {
    /// Whether the transfer is over.
    pub fn is_done(&self) -> (done: bool)
        ensures
            done == (self.stage == WriteStage::Done),
    {
        match self.stage {
            WriteStage::Done => true,
            _ => false,
        }
    }

    /// One step of the transaction: given the FIFO count read since the last
    /// step (`None` where nothing was read), moves to the next stage and
    /// returns the actions to perform, in order.
    pub fn step(&mut self, reading: Option<i32>) -> (actions: Vec<I2cAction>)
        ensures
            final(self).addr_byte == old(self).addr_byte,
            final(self).payload@ == old(self).payload@,
            final(self).payload_len == old(self).payload_len,
            final(self).cmd_len == old(self).cmd_len,
            (final(self).stage, ops_of(actions@)) == next_step(*old(self), reading),
    {
        match self.stage {
            WriteStage::Reset => {
                self.stage = WriteStage::AwaitBaseline;
                let actions = vec![
                    I2cAction::Call(LlCall::I2cRxfifoRst),
                    I2cAction::Call(LlCall::I2cTxfifoRst),
                    I2cAction::ReadTxfifoCount,
                ];
                assert(ops_of(actions@) =~= write_prologue());
                actions
            },
            WriteStage::AwaitBaseline => match reading {
                Some(count) => {
                    self.stage = WriteStage::Poll(count);
                    let address = vec![self.addr_byte];
                    let payload = copy_bytes(self.payload.as_slice());
                    let ghost address_view = address@;
                    let ghost payload_view = payload@;
                    assert(address_view =~= seq![old(self).addr_byte]);
                    let actions = vec![
                        I2cAction::Call(LlCall::I2cWriteCmd0Rstart),
                        I2cAction::WriteTxfifo(address, 1),
                        I2cAction::WriteTxfifo(payload, self.payload_len),
                        I2cAction::Call(LlCall::I2cWriteCmd1Write(self.cmd_len)),
                        I2cAction::Call(LlCall::I2cWriteCmd2Stop),
                        I2cAction::Call(LlCall::I2cUpdate),
                        I2cAction::Call(LlCall::I2cTransStart),
                        I2cAction::ReadTxfifoCount,
                    ];
                    assert(actions@[1]@ == I2cOp::WriteTxfifo(address_view, 1));
                    assert(actions@[2]@ == I2cOp::WriteTxfifo(payload_view, old(self).payload_len));
                    assert(ops_of(actions@) =~= program_ops(*old(self)).push(
                        I2cOp::ReadTxfifoCount,
                    ));
                    actions
                },
                None => {
                    let actions = vec![I2cAction::ReadTxfifoCount];
                    assert(ops_of(actions@) =~= seq![I2cOp::ReadTxfifoCount]);
                    actions
                },
            },
            WriteStage::Poll(baseline) => match reading {
                Some(count) => {
                    if count == baseline {
                        self.stage = WriteStage::Done;
                        let actions: Vec<I2cAction> = Vec::new();
                        assert(ops_of(actions@) =~= Seq::<I2cOp>::empty());
                        actions
                    } else {
                        let actions = vec![I2cAction::ReadTxfifoCount];
                        assert(ops_of(actions@) =~= seq![I2cOp::ReadTxfifoCount]);
                        actions
                    }
                },
                None => {
                    let actions = vec![I2cAction::ReadTxfifoCount];
                    assert(ops_of(actions@) =~= seq![I2cOp::ReadTxfifoCount]);
                    actions
                },
            },
            WriteStage::Done => {
                let actions: Vec<I2cAction> = Vec::new();
                assert(ops_of(actions@) =~= Seq::<I2cOp>::empty());
                actions
            },
        }
    }
}

/// The stage and the actions that a run of steps reaches from `w`, one step
/// per reading, in order.
pub open spec fn run_steps(w: I2cWrite, readings: Seq<Option<i32>>) -> (WriteStage, Seq<I2cOp>)
    decreases readings.len(),
{
    if readings.len() == 0 {
        (w.stage, Seq::empty())
    } else {
        let (stage, actions) = next_step(w, readings[0]);
        let rest = run_steps(I2cWrite { stage, ..w }, readings.drop_first());
        (rest.0, actions + rest.1)
    }
}

/// `n` reads of the transmit FIFO count.
pub open spec fn fifo_reads(n: nat) -> Seq<I2cOp> {
    Seq::new(n, |i: int| I2cOp::ReadTxfifoCount)
}

/// The FIFO count readings of a poll that ends on the `polls.len()`-th read:
/// only the last one equals the baseline.
pub open spec fn poll_ends_last(baseline: i32, polls: Seq<i32>) -> bool {
    &&& polls.len() > 0
    &&& polls.last() == baseline
    &&& forall|i: int| 0 <= i < polls.len() - 1 ==> polls[i] != baseline
}

/// The readings as the steps receive them.
pub open spec fn as_readings(polls: Seq<i32>) -> Seq<Option<i32>> {
    polls.map_values(|c: i32| Some(c))
}

proof fn lemma_poll_phase(w: I2cWrite, baseline: i32, polls: Seq<i32>)
    requires
        w.stage == WriteStage::Poll(baseline),
        poll_ends_last(baseline, polls),
    ensures
        run_steps(w, as_readings(polls)) == (WriteStage::Done, fifo_reads((polls.len() - 1) as nat)),
    decreases polls.len(),
{
    let readings = as_readings(polls);
    assert(readings[0] == Some(polls[0]));
    if polls.len() == 1 {
        assert(polls[0] == baseline);
        assert(next_step(w, readings[0]) == (WriteStage::Done, Seq::<I2cOp>::empty()));
        let w_done = I2cWrite { stage: WriteStage::Done, ..w };
        assert(readings.drop_first() =~= Seq::<Option<i32>>::empty());
        assert(run_steps(w_done, readings.drop_first()) == (
            WriteStage::Done,
            Seq::<I2cOp>::empty(),
        ));
        assert(Seq::<I2cOp>::empty() + Seq::<I2cOp>::empty() =~= fifo_reads(0));
    } else {
        assert(polls[0] != baseline);
        let rest = polls.drop_first();
        assert(readings.drop_first() =~= as_readings(rest));
        assert(poll_ends_last(baseline, rest)) by {
            assert forall|i: int| 0 <= i < rest.len() - 1 implies rest[i] != baseline by {
                assert(rest[i] == polls[i + 1]);
            }
        }
        let w2 = I2cWrite { stage: WriteStage::Poll(baseline), ..w };
        assert(next_step(w, readings[0]) == (
            WriteStage::Poll(baseline),
            seq![I2cOp::ReadTxfifoCount],
        ));
        lemma_poll_phase(w2, baseline, rest);
        assert(seq![I2cOp::ReadTxfifoCount] + fifo_reads((rest.len() - 1) as nat) =~= fifo_reads(
            (polls.len() - 1) as nat,
        ));
    }
}

/// A write made by `I2c::write(address, payload)` makes exactly these calls,
/// pushes and reads, in this order: both FIFO resets, a read of the FIFO
/// count (the baseline), the start command, a push of the address byte, a
/// push of the payload bytes (in order), the write, stop, update and start
/// calls, then reads of the FIFO count until one returns the baseline; it is
/// over on that read, not before.
pub proof fn lemma_write_trace(
    w: I2cWrite,
    address: u8,
    payload: Seq<u8>,
    baseline: i32,
    polls: Seq<i32>,
)
    requires
        w.addr_byte == address_byte(address),
        w.payload@ == payload,
        w.payload_len == payload_len_byte(payload.len()),
        w.cmd_len == write_cmd_len(payload.len()),
        w.stage == WriteStage::Reset,
        poll_ends_last(baseline, polls),
    ensures
        run_steps(w, seq![None, Some(baseline)] + as_readings(polls)) == (
            WriteStage::Done,
            write_prologue() + write_program(address, payload) + fifo_reads(polls.len()),
        ),
{
    let readings = seq![None, Some(baseline)] + as_readings(polls);
    let w1 = I2cWrite { stage: WriteStage::AwaitBaseline, ..w };
    let w2 = I2cWrite { stage: WriteStage::Poll(baseline), ..w };
    assert(readings[0] == None::<i32>);
    assert(readings.drop_first() =~= seq![Some(baseline)] + as_readings(polls));
    let r1 = readings.drop_first();
    assert(r1[0] == Some(baseline));
    assert(r1.drop_first() =~= as_readings(polls));
    lemma_poll_phase(w2, baseline, polls);
    assert(next_step(w, readings[0]) == (WriteStage::AwaitBaseline, write_prologue()));
    assert(next_step(w1, r1[0]) == (
        WriteStage::Poll(baseline),
        program_ops(w1).push(I2cOp::ReadTxfifoCount),
    ));
    let tail = run_steps(w2, r1.drop_first());
    assert(run_steps(w1, r1) == (tail.0, program_ops(w1).push(I2cOp::ReadTxfifoCount) + tail.1));
    assert(run_steps(w, readings) == (
        tail.0,
        write_prologue() + (program_ops(w1).push(I2cOp::ReadTxfifoCount) + tail.1),
    ));
    assert(program_ops(w1) =~= write_program(address, payload));
    assert(program_ops(w1).push(I2cOp::ReadTxfifoCount) + fifo_reads((polls.len() - 1) as nat)
        =~= write_program(address, payload) + fifo_reads(polls.len()));
    assert(write_prologue() + (write_program(address, payload) + fifo_reads(polls.len()))
        =~= write_prologue() + write_program(address, payload) + fifo_reads(polls.len()));
}

/// The values a write sends, for the inputs the bus is used with: a 7-bit
/// address goes out doubled, with the read/write bit 0 (write); a payload of
/// under 256 bytes goes to the FIFO with its own length; the write command
/// counts the payload and the address byte, so for a payload of under 256
/// bytes it counts exactly the bytes pushed into the FIFO.
pub proof fn lemma_write_values(address: u8, len: nat)
    ensures
        address < 128 ==> address_byte(address) == 2 * address,
        address_byte(address) % 2 == 0,
        len < 256 ==> payload_len_byte(len) == len,
        len + 1 <= i32::MAX ==> write_cmd_len(len) == len + 1,
        len < 256 ==> 1 + payload_len_byte(len) == write_cmd_len(len),
{
}

/// Bringing up the master makes four calls: enable the controller, make it a
/// master, route it to pads `sda` and `scl` with the pull-ups the caller
/// asked for, in master mode, and clock it at `freq` from the default source
/// clock. Each argument reaches its call unchanged (pads as `i32`), so two
/// setups are the same exactly when they were asked for with the same
/// arguments.
pub proof fn lemma_master_setup_carries_its_arguments(
    sda: u32,
    scl: u32,
    sda_pullup: bool,
    scl_pullup: bool,
    freq: u32,
    sda2: u32,
    scl2: u32,
    sda_pullup2: bool,
    scl_pullup2: bool,
    freq2: u32,
)
    ensures
        ({
            let s = i2c_master_setup(sda, scl, sda_pullup, scl_pullup, freq);
            &&& s.len() == 4
            &&& s[0] == LlCall::I2cHwEnable
            &&& s[1] == LlCall::I2c0MasterInit
            &&& s[2] is I2c0SetPin
            &&& s[2]->I2c0SetPin_0 == sda as i32
            &&& s[2]->I2c0SetPin_1 == scl as i32
            &&& s[2]->I2c0SetPin_2 == sda_pullup
            &&& s[2]->I2c0SetPin_3 == scl_pullup
            &&& s[2]->I2c0SetPin_4 == 1
            &&& s[3] is I2c0SetBusTiming
            &&& s[3]->I2c0SetBusTiming_0 == freq
            &&& s[3]->I2c0SetBusTiming_1 == 0
        }),
        (i2c_master_setup(sda, scl, sda_pullup, scl_pullup, freq) == i2c_master_setup(
            sda2,
            scl2,
            sda_pullup2,
            scl_pullup2,
            freq2,
        )) <==> (sda == sda2 && scl == scl2 && sda_pullup == sda_pullup2 && scl_pullup
            == scl_pullup2 && freq == freq2),
{
    assert(sda != sda2 ==> (sda as i32) != (sda2 as i32)) by (bit_vector);
    assert(scl != scl2 ==> (scl as i32) != (scl2 as i32)) by (bit_vector);
    let s = i2c_master_setup(sda, scl, sda_pullup, scl_pullup, freq);
    let t = i2c_master_setup(sda2, scl2, sda_pullup2, scl_pullup2, freq2);
    if s == t {
        assert(s[2] == t[2]);
        assert(s[3] == t[3]);
    }
}

/// What a write sends, in terms of its inputs: after both FIFO resets and a
/// read of the FIFO count, it loads the start command, pushes one byte
/// holding the address shifted left by one (write bit 0), pushes the payload
/// itself, in order, with its length, loads a write command that counts the
/// address byte and the payload, then stop, update and start. For a 7-bit
/// address and a payload under 256 bytes the write command counts exactly the
/// bytes pushed into the FIFO. Writes that differ in their payload push
/// different bytes.
pub proof fn lemma_write_program_sends_its_inputs(
    address: u8,
    payload: Seq<u8>,
    other: Seq<u8>,
)
    ensures
        write_prologue() == seq![
            I2cOp::Call(LlCall::I2cRxfifoRst),
            I2cOp::Call(LlCall::I2cTxfifoRst),
            I2cOp::ReadTxfifoCount,
        ],
        ({
            let p = write_program(address, payload);
            &&& p.len() == 7
            &&& p[0] == I2cOp::Call(LlCall::I2cWriteCmd0Rstart)
            &&& p[1] == I2cOp::WriteTxfifo(seq![((address * 2) % 256) as u8], 1)
            &&& p[2] == I2cOp::WriteTxfifo(payload, (payload.len() % 256) as u8)
            &&& p[3] == I2cOp::Call(LlCall::I2cWriteCmd1Write((payload.len() + 1) as i32))
            &&& p[4] == I2cOp::Call(LlCall::I2cWriteCmd2Stop)
            &&& p[5] == I2cOp::Call(LlCall::I2cUpdate)
            &&& p[6] == I2cOp::Call(LlCall::I2cTransStart)
            &&& address < 128 ==> p[1] == I2cOp::WriteTxfifo(seq![(2 * address) as u8], 1)
            &&& payload.len() < 256 ==> p[2] == I2cOp::WriteTxfifo(payload, payload.len() as u8)
            &&& payload.len() < 256 ==> p[3] == I2cOp::Call(
                LlCall::I2cWriteCmd1Write((1 + payload.len()) as i32),
            )
        }),
        payload != other ==> write_program(address, payload)[2] != write_program(address, other)[2],
        forall|n: nat, i: int| 0 <= i < n ==> #[trigger] fifo_reads(n)[i] == I2cOp::ReadTxfifoCount,
        forall|n: nat| #[trigger] fifo_reads(n).len() == n,
{
}

} // verus!
