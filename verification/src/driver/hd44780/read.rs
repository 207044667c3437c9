//! Reading back from an HD44780 through a PCF8574T port.
//!
//! A read cannot be planned ahead: the controller is polled until its busy flag clears, and how
//! often that takes is known only on the bus. So a read is a [`ReadSession`], a state machine
//! that hands out one plan at a time and is fed the bytes that the plan's reads brought back.

use vstd::prelude::*;
use crate::bus::{BusOp, BusPlan};
use crate::signal::{
    bit, data_lines, encode_pcf8574t, lemma_pcf8574t_round_trip, pcf8574t_byte, pcf8574t_signals,
    read_data_lines, SignalState,
};
use crate::CharacterDisplayError;

verus! {

/// The lines during a read cycle: data lines released high, RW high, the enable line as given.
pub open spec fn read_signals(s: SignalState, rs: bool, enable: bool) -> SignalState {
    SignalState { rs, rw: true, enable0: enable, data: 0x0f, ..s }
}

/// The write that puts the lines of a read cycle on the port.
pub open spec fn read_write(address: u8, s: SignalState, rs: bool, enable: bool) -> BusOp {
    BusOp::Write { address, bytes: seq![pcf8574t_byte(read_signals(s, rs, enable))] }
}

/// One poll of the busy flag. The controller hands out a byte in two nibbles, and each nibble
/// takes one cycle of three writes: the read of the instruction register is set up with the
/// enable line low, the line is raised, and it is lowered again. The port is read while the
/// line is high in the first cycle, whose nibble carries the busy flag; the second cycle only
/// takes the low nibble off the controller. Six writes and one read.
pub open spec fn poll_ops(address: u8, s: SignalState) -> Seq<BusOp> {
    seq![
        read_write(address, s, false, false),
        read_write(address, s, false, true),
        BusOp::Read { address },
        read_write(address, s, false, false),
        read_write(address, s, false, false),
        read_write(address, s, false, true),
        read_write(address, s, false, false),
    ]
}

/// The transfer of one byte: set up a read of the chosen register, then for the high and for
/// the low nibble raise the enable line, read the port and lower the line again.
pub open spec fn fetch_ops(address: u8, s: SignalState, rs: bool) -> Seq<BusOp> {
    seq![
        read_write(address, s, rs, false),
        read_write(address, s, rs, true),
        BusOp::Read { address },
        read_write(address, s, rs, false),
        read_write(address, s, rs, true),
        BusOp::Read { address },
        read_write(address, s, rs, false),
    ]
}

/// The port byte of every write of a poll: bits 4 to 7, the data lines, and bit 1, RW, set,
/// bit 0, RS, clear, bit 3 as the backlight stands and bit 2 as the enable line stands.
pub open spec fn poll_byte(backlight: bool, enable: bool) -> u8 {
    (0xf2 + 4 * bit(enable) + 8 * bit(backlight)) as u8
}

/// Whether a port byte read during a poll shows the busy flag: bit 3 of the nibble on the data
/// lines.
pub open spec fn busy_flag(reply: u8) -> bool {
    data_lines(reply) >= 8
}

/// The byte that two port reads carry: the data lines of the first are its high nibble, those
/// of the second its low nibble.
pub open spec fn joined(high: u8, low: u8) -> u8 {
    (data_lines(high) * 16 + data_lines(low)) as u8
}

/// `byte` without the bits that `mask` leaves out. The two masks in use are `0xff`, which keeps
/// the byte, and `0x7f`, which drops bit 7.
pub open spec fn masked(byte: u8, mask: u8) -> u8 {
    byte & mask
}

/// Where a read stands.
#[derive(Debug, PartialEq, Eq, Clone, Copy, Structural)]
pub enum ReadPhase {
    /// Nothing has been planned yet.
    Start,
    /// A poll of the busy flag is out; its one reply is awaited.
    Polling,
    /// The transfer of a byte is out; its two replies are awaited.
    Fetching,
    /// All bytes are in.
    Done,
    /// A plan came back with the wrong number of replies.
    Failed,
}

/// A read, as a mathematical value.
pub struct ReadState {
    /// The bus address of the port.
    pub address: u8,
    /// The lines of the port when the read began.
    pub signals: SignalState,
    /// The register to read: `true` for data, `false` for busy flag and address counter.
    pub rs: bool,
    /// Laid over each byte read.
    pub mask: u8,
    /// How many bytes to read.
    pub wanted: nat,
    /// The bytes read so far.
    pub bytes: Seq<u8>,
    /// Where the read stands.
    pub phase: ReadPhase,
}

/// What a session asks for next, as a mathematical value.
pub enum ReadOutcome {
    /// Perform these steps and come back with what the reads brought.
    Perform(Seq<BusOp>),
    /// The read is over.
    Finished(Result<Seq<u8>, CharacterDisplayError>),
}

impl ReadState {
    /// The session's answer when `replies` came back from the plan that is out.
    pub open spec fn step(self, replies: Seq<u8>) -> (ReadState, ReadOutcome) {
        match self.phase {
            ReadPhase::Start => self.next_byte(),
            ReadPhase::Polling => if replies.len() != 1 {
                self.fail()
            } else if busy_flag(replies[0]) {
                (self, ReadOutcome::Perform(poll_ops(self.address, self.signals)))
            } else {
                (
                    ReadState { phase: ReadPhase::Fetching, ..self },
                    ReadOutcome::Perform(fetch_ops(self.address, self.signals, self.rs)),
                )
            },
            ReadPhase::Fetching => if replies.len() != 2 {
                self.fail()
            } else {
                ReadState {
                    bytes: self.bytes.push(masked(joined(replies[0], replies[1]), self.mask)),
                    ..self
                }.next_byte()
            },
            ReadPhase::Done => (self, ReadOutcome::Finished(Ok(self.bytes))),
            ReadPhase::Failed => (
                self,
                ReadOutcome::Finished(Err(CharacterDisplayError::I2cError)),
            ),
        }
    }

    /// Goes for the next byte if one is still wanted, else ends the read.
    pub open spec fn next_byte(self) -> (ReadState, ReadOutcome) {
        if self.bytes.len() >= self.wanted {
            (
                ReadState { phase: ReadPhase::Done, ..self },
                ReadOutcome::Finished(Ok(self.bytes)),
            )
        } else {
            (
                ReadState { phase: ReadPhase::Polling, ..self },
                ReadOutcome::Perform(poll_ops(self.address, self.signals)),
            )
        }
    }

    /// The read with the byte that the port bytes `high` and `low` carry added to its bytes,
    /// before it goes for the next byte.
    pub open spec fn with_byte(self, high: u8, low: u8) -> ReadState {
        ReadState {
            bytes: self.bytes.push(masked(joined(high, low), self.mask)),
            phase: ReadPhase::Start,
            ..self
        }
    }

    /// Ends the read because the bus did not answer as asked.
    pub open spec fn fail(self) -> (ReadState, ReadOutcome) {
        (
            ReadState { phase: ReadPhase::Failed, ..self },
            ReadOutcome::Finished(Err(CharacterDisplayError::I2cError)),
        )
    }

    /// How many replies the plan that is out will bring.
    pub open spec fn awaited(self) -> nat {
        match self.phase {
            ReadPhase::Polling => 1,
            ReadPhase::Fetching => 2,
            _ => 0,
        }
    }

    /// The plan that is out.
    pub open spec fn plan_out(self) -> Seq<BusOp> {
        match self.phase {
            ReadPhase::Polling => poll_ops(self.address, self.signals),
            ReadPhase::Fetching => fetch_ops(self.address, self.signals, self.rs),
            _ => Seq::empty(),
        }
    }

    /// The steps performed, and the result, when the bus answers the reads with `script`, one
    /// byte per read in order, and fails the plan for whose reads no bytes are left. Only
    /// plans that were answered in full count as performed.
    pub open spec fn replay(self, script: Seq<u8>) -> (
        Seq<BusOp>,
        Result<Seq<u8>, CharacterDisplayError>,
    )
        decreases script.len(), bit(self.phase == ReadPhase::Start),
    {
        let need = self.awaited();
        if self.phase == ReadPhase::Start {
            self.next_byte().0.replay(script)
        } else if self.phase == ReadPhase::Done {
            (Seq::empty(), Ok(self.bytes))
        } else if self.phase == ReadPhase::Failed {
            (Seq::empty(), Err(CharacterDisplayError::I2cError))
        } else if script.len() < need {
            (Seq::empty(), Err(CharacterDisplayError::I2cError))
        } else {
            let rest = self.step(script.take(need as int)).0.replay(script.skip(need as int));
            (self.plan_out() + rest.0, rest.1)
        }
    }
}

/// What a session asks for next.
#[derive(Debug, PartialEq, Eq)]
pub enum ReadStep {
    /// Perform these steps and come back with what the reads brought, one byte per read.
    Perform(BusPlan),
    /// The read is over: the bytes read, or the error that ended it.
    Finished(Result<Vec<u8>, CharacterDisplayError>),
}

impl View for ReadStep {
    type V = ReadOutcome;

    open spec fn view(&self) -> ReadOutcome {
        match *self {
            ReadStep::Perform(plan) => ReadOutcome::Perform(plan@),
            ReadStep::Finished(Ok(bytes)) => ReadOutcome::Finished(Ok(bytes@)),
            ReadStep::Finished(Err(e)) => ReadOutcome::Finished(Err(e)),
        }
    }
}

/// The bytes of a finished read, or the error in their place, as a mathematical value.
pub open spec fn read_result(result: Result<Vec<u8>, CharacterDisplayError>) -> Result<
    Seq<u8>,
    CharacterDisplayError,
> {
    match result {
        Ok(bytes) => Ok(bytes@),
        Err(e) => Err(e),
    }
}

/// A read in progress.
#[derive(Debug, PartialEq, Eq)]
pub struct ReadSession {
    address: u8,
    signals: SignalState,
    rs: bool,
    mask: u8,
    wanted: usize,
    bytes: Vec<u8>,
    phase: ReadPhase,
}

impl View for ReadSession {
    type V = ReadState;

    closed spec fn view(&self) -> ReadState {
        ReadState {
            address: self.address,
            signals: self.signals,
            rs: self.rs,
            mask: self.mask,
            wanted: self.wanted as nat,
            bytes: self.bytes@,
            phase: self.phase,
        }
    }
}

/// Plans one poll of the busy flag.
pub fn poll_plan(address: u8, signals: &SignalState) -> (plan: BusPlan)
    ensures
        plan@ == poll_ops(address, *signals),
{
    let low = SignalState { rs: false, rw: true, enable0: false, data: 0x0f, ..*signals };
    let high = SignalState { enable0: true, ..low };
    let low_byte: u8 = encode_pcf8574t(&low);
    let high_byte: u8 = encode_pcf8574t(&high);
    let mut plan = BusPlan::new();
    // the high nibble, with the busy flag in its bit 3
    plan.write_byte(address, low_byte);
    plan.write_byte(address, high_byte);
    plan.read(address);
    plan.write_byte(address, low_byte);
    // the low nibble, which is taken off the controller and not read
    plan.write_byte(address, low_byte);
    plan.write_byte(address, high_byte);
    plan.write_byte(address, low_byte);
    assert(plan@ =~= poll_ops(address, *signals));
    plan
}

/// Plans the transfer of one byte from the data register (`rs` true) or of the busy flag and
/// address counter (`rs` false).
pub fn fetch_plan(address: u8, signals: &SignalState, rs: bool) -> (plan: BusPlan)
    ensures
        plan@ == fetch_ops(address, *signals, rs),
{
    let low = SignalState { rs, rw: true, enable0: false, data: 0x0f, ..*signals };
    let high = SignalState { enable0: true, ..low };
    let low_byte: u8 = encode_pcf8574t(&low);
    let high_byte: u8 = encode_pcf8574t(&high);
    let mut plan = BusPlan::new();
    plan.write_byte(address, low_byte);
    plan.write_byte(address, high_byte);
    plan.read(address);
    plan.write_byte(address, low_byte);
    plan.write_byte(address, high_byte);
    plan.read(address);
    plan.write_byte(address, low_byte);
    assert(plan@ =~= fetch_ops(address, *signals, rs));
    plan
}

/// Tells from the port byte read during a poll whether the controller is busy.
pub fn is_busy_reply(reply: u8) -> (busy: bool)
    ensures
        busy == busy_flag(reply),
{
    let data: u8 = read_data_lines(reply);
    assert(data & 0b1000 != 0 <==> data >= 8) by (bit_vector)
        requires
            data < 16,
    ;
    data & 0b1000 != 0
}

/// Puts the two nibbles of a byte together from the two port bytes that carried them, high
/// nibble first.
pub fn join_nibbles(high: u8, low: u8) -> (byte: u8)
    ensures
        byte == joined(high, low),
{
    let h: u8 = read_data_lines(high);
    let l: u8 = read_data_lines(low);
    assert((h << 4) | (l & 0x0f) == h * 16 + l) by (bit_vector)
        requires
            h < 16,
            l < 16,
    ;
    (h << 4) | (l & 0x0f)
}

impl ReadSession {
    /// A read of `wanted` bytes from the port at `address`, whose lines stand at `signals`.
    /// `rs` picks the register and `mask` is laid over every byte read.
    pub fn new(address: u8, signals: SignalState, rs: bool, mask: u8, wanted: usize) -> (session:
        Self)
        ensures
            session@ == (ReadState {
                address,
                signals,
                rs,
                mask,
                wanted: wanted as nat,
                bytes: Seq::empty(),
                phase: ReadPhase::Start,
            }),
    {
        ReadSession {
            address,
            signals,
            rs,
            mask,
            wanted,
            bytes: Vec::new(),
            phase: ReadPhase::Start,
        }
    }

    /// The same read with `mask` laid over every byte read.
    pub fn with_mask(self, mask: u8) -> (session: Self)
        ensures
            session@ == (ReadState { mask, ..self@ }),
    {
        ReadSession { mask, ..self }
    }

    /// Where the read stands.
    pub fn phase(&self) -> (phase: ReadPhase)
        ensures
            phase == self@.phase,
    {
        self.phase
    }

    fn go_on(&mut self) -> (step: ReadStep)
        ensures
            (final(self)@, step@) == old(self)@.next_byte(),
    {
        if self.bytes.len() >= self.wanted {
            self.phase = ReadPhase::Done;
            ReadStep::Finished(Ok(self.bytes.clone()))
        } else {
            self.phase = ReadPhase::Polling;
            ReadStep::Perform(poll_plan(self.address, &self.signals))
        }
    }

    /// Takes the bytes that the reads of the last plan brought back, in order, and says what
    /// to do next. The first call takes no bytes. A plan that comes back with another number
    /// of bytes than it holds reads ends the session with a bus error.
    pub fn step(&mut self, replies: &[u8]) -> (step: ReadStep)
        ensures
            (final(self)@, step@) == old(self)@.step(replies@),
    {
        match self.phase {
            ReadPhase::Start => self.go_on(),
            ReadPhase::Polling => {
                if replies.len() != 1 {
                    self.phase = ReadPhase::Failed;
                    ReadStep::Finished(Err(CharacterDisplayError::I2cError))
                } else if is_busy_reply(replies[0]) {
                    ReadStep::Perform(poll_plan(self.address, &self.signals))
                } else {
                    self.phase = ReadPhase::Fetching;
                    ReadStep::Perform(fetch_plan(self.address, &self.signals, self.rs))
                }
            },
            ReadPhase::Fetching => {
                if replies.len() != 2 {
                    self.phase = ReadPhase::Failed;
                    ReadStep::Finished(Err(CharacterDisplayError::I2cError))
                } else {
                    let byte: u8 = join_nibbles(replies[0], replies[1]) & self.mask;
                    self.bytes.push(byte);
                    self.go_on()
                }
            },
            ReadPhase::Done => ReadStep::Finished(Ok(self.bytes.clone())),
            ReadPhase::Failed => ReadStep::Finished(Err(CharacterDisplayError::I2cError)),
        }
    }

    /// Runs the read against a bus that answers the reads with `script`, one byte per read in
    /// order, and fails the plan for whose reads no bytes are left. Returns the steps of the
    /// plans that were answered in full, and the result of the read.
    pub fn replay(self, script: &[u8]) -> (outcome: (
        BusPlan,
        Result<Vec<u8>, CharacterDisplayError>,
    ))
        ensures
            outcome.0@ == self@.replay(script@).0,
            read_result(outcome.1) == self@.replay(script@).1,
    {
        let mut session = self;
        let mut trace = BusPlan::new();
        let mut pos: usize = 0;
        if session.phase == ReadPhase::Start {
            let nothing: Vec<u8> = Vec::new();
            let _ = session.step(nothing.as_slice());
        }
        assert(script@.skip(0) =~= script@);
        assert(trace@ + session@.replay(script@).0 =~= session@.replay(script@).0);
        loop
            invariant
                pos <= script.len(),
                session@.phase != ReadPhase::Start,
                self@.replay(script@).0 == trace@ + session@.replay(script@.skip(pos as int)).0,
                self@.replay(script@).1 == session@.replay(script@.skip(pos as int)).1,
            decreases script.len() - pos,
        {
            let ghost rest = script@.skip(pos as int);
            let ghost before = session@;
            let ghost so_far = trace@;
            let need: usize = match session.phase {
                ReadPhase::Polling => 1,
                ReadPhase::Fetching => 2,
                ReadPhase::Done => {
                    assert(so_far + Seq::<BusOp>::empty() =~= so_far);
                    return (trace, Ok(session.bytes));
                },
                _ => {
                    assert(so_far + Seq::<BusOp>::empty() =~= so_far);
                    return (trace, Err(CharacterDisplayError::I2cError));
                },
            };
            if script.len() - pos < need {
                assert(so_far + Seq::<BusOp>::empty() =~= so_far);
                return (trace, Err(CharacterDisplayError::I2cError));
            }
            let mut replies: Vec<u8> = Vec::new();
            replies.push(script[pos]);
            if need == 2 {
                replies.push(script[pos + 1]);
                trace.extend(fetch_plan(session.address, &session.signals, session.rs));
            } else {
                trace.extend(poll_plan(session.address, &session.signals));
            }
            assert(replies@ =~= rest.take(need as int));
            assert(rest.skip(need as int) =~= script@.skip(pos + need));
            let _ = session.step(replies.as_slice());
            pos = pos + need;
            assert(so_far + (before.plan_out() + session@.replay(script@.skip(pos as int)).0)
                =~= trace@ + session@.replay(script@.skip(pos as int)).0);
        }
    }
}

/// A poll of the busy flag is seven steps, all at the port's address: six writes of one byte
/// and, as third step, the one read. Every write has the data lines high, RW high, RS low and
/// the backlight as the adapter holds it. The enable line is low in the first write, high in
/// the second, during which the port is read, and low again in the third; the last three
/// writes repeat the cycle, so that the last write leaves the line low.
pub proof fn lemma_poll_shape(address: u8, s: SignalState)
    ensures
        poll_ops(address, s).len() == 7,
        poll_ops(address, s)[2] == (BusOp::Read { address }),
        forall|i: int|
            0 <= i < 7 && i != 2 ==> #[trigger] poll_ops(address, s)[i] == (BusOp::Write {
                address,
                bytes: seq![poll_byte(s.backlight, i == 1 || i == 5)],
            }),
        forall|enable: bool|
            pcf8574t_signals(#[trigger] poll_byte(s.backlight, enable)) == (SignalState {
                rs: false,
                rw: true,
                enable0: enable,
                enable1: false,
                backlight: s.backlight,
                data: 0x0f,
            }),
{
    assert forall|enable: bool|
        pcf8574t_signals(#[trigger] poll_byte(s.backlight, enable)) == (SignalState {
            rs: false,
            rw: true,
            enable0: enable,
            enable1: false,
            backlight: s.backlight,
            data: 0x0f,
        }) by {
        lemma_pcf8574t_round_trip(0, read_signals(s, false, enable));
    }
}

/// The transfer of a byte is seven steps: the write that sets up the read, then for the high
/// and for the low nibble a write that raises the enable line, the read, and a write that
/// lowers the line again.
pub proof fn lemma_fetch_shape(address: u8, s: SignalState, rs: bool)
    ensures
        fetch_ops(address, s, rs).len() == 7,
        fetch_ops(address, s, rs)[2] == (BusOp::Read { address }),
        fetch_ops(address, s, rs)[5] == (BusOp::Read { address }),
        forall|i: int|
            0 <= i < 7 && i != 2 && i != 5 ==> (#[trigger] fetch_ops(
                address,
                s,
                rs,
            )[i] matches BusOp::Write {
                address: to,
                bytes,
            } && to == address && bytes.len() == 1),
{
}

/// The nibbles on the data lines of two port bytes make up the byte read: the first is its
/// high half, the second its low half.
pub proof fn lemma_joined(high: u8, low: u8)
    ensures
        joined(high, low) / 16 == high / 16,
        joined(high, low) % 16 == low / 16,
{
    assert(high / 16 < 16 && low / 16 < 16) by (bit_vector);
}

/// While the controller is busy it is polled again: a poll that reads the busy flag set is
/// followed by what the read does from the same state with the rest of the script.
pub proof fn lemma_replay_busy(state: ReadState, script: Seq<u8>)
    requires
        state.phase == ReadPhase::Polling,
        script.len() >= 1,
        busy_flag(script[0]),
    ensures
        state.replay(script) == (
            poll_ops(state.address, state.signals) + state.replay(script.skip(1)).0,
            state.replay(script.skip(1)).1,
        ),
{
    assert(script.take(1)[0] == script[0]);
}

/// Once the controller is not busy one byte is transferred: a poll that reads the busy flag
/// clear is followed by the transfer, the two port bytes read make up the next byte of the
/// result, and the read goes on for the bytes that are still wanted.
pub proof fn lemma_replay_byte(state: ReadState, script: Seq<u8>)
    requires
        state.phase == ReadPhase::Polling,
        script.len() >= 3,
        !busy_flag(script[0]),
    ensures
        state.replay(script) == (
            poll_ops(state.address, state.signals) + fetch_ops(
                state.address,
                state.signals,
                state.rs,
            ) + state.with_byte(script[1], script[2]).replay(script.skip(3)).0,
            state.with_byte(script[1], script[2]).replay(script.skip(3)).1,
        ),
{
    let fetching = ReadState { phase: ReadPhase::Fetching, ..state };
    let rest = script.skip(1);
    assert(script.take(1)[0] == script[0]);
    assert(state.step(script.take(1)).0 == fetching);
    assert(rest.take(2)[0] == script[1] && rest.take(2)[1] == script[2]);
    assert(rest.skip(2) =~= script.skip(3));
    let next = fetching.step(rest.take(2)).0;
    assert(next == state.with_byte(script[1], script[2]).next_byte().0);
    assert(fetching.replay(rest) == (
        fetch_ops(state.address, state.signals, state.rs) + next.replay(script.skip(3)).0,
        next.replay(script.skip(3)).1,
    ));
    assert(state.with_byte(script[1], script[2]).replay(script.skip(3)) == next.replay(
        script.skip(3),
    ));
    assert(state.replay(script).0 =~= poll_ops(state.address, state.signals) + fetch_ops(
        state.address,
        state.signals,
        state.rs,
    ) + next.replay(script.skip(3)).0);
}

/// `ops`, `n` times over.
pub open spec fn repeated(ops: Seq<BusOp>, n: nat) -> Seq<BusOp>
    decreases n,
{
    if n == 0 {
        Seq::empty()
    } else {
        ops + repeated(ops, (n - 1) as nat)
    }
}

/// Whether `script` answers a read of `n` bytes from a controller that is never found busy:
/// three port bytes per byte read, the first of them with the busy flag clear.
pub open spec fn never_busy(script: Seq<u8>, n: nat) -> bool {
    &&& script.len() == 3 * n
    &&& forall|k: int| 0 <= k < n ==> !busy_flag(#[trigger] script[3 * k])
}

/// The bytes that a read of `n` bytes takes from a script of three port bytes per byte read.
pub open spec fn bytes_of_script(script: Seq<u8>, n: nat, mask: u8) -> Seq<u8> {
    Seq::new(n, |k: int| masked(joined(script[3 * k + 1], script[3 * k + 2]), mask))
}

/// A read from a controller that is never found busy performs, for each byte that is still
/// wanted, one poll and one transfer, and delivers the bytes that the script's port bytes
/// carry, after those that it held already.
pub proof fn lemma_read_never_busy(start: ReadState, script: Seq<u8>)
    requires
        start.phase == ReadPhase::Start,
        start.bytes.len() <= start.wanted,
        never_busy(script, (start.wanted - start.bytes.len()) as nat),
    ensures
        start.replay(script) == (
            repeated(
                poll_ops(start.address, start.signals) + fetch_ops(
                    start.address,
                    start.signals,
                    start.rs,
                ),
                (start.wanted - start.bytes.len()) as nat,
            ),
            Ok::<Seq<u8>, CharacterDisplayError>(
                start.bytes + bytes_of_script(
                    script,
                    (start.wanted - start.bytes.len()) as nat,
                    start.mask,
                ),
            ),
        ),
    decreases start.wanted - start.bytes.len(),
{
    let n = (start.wanted - start.bytes.len()) as nat;
    let round = poll_ops(start.address, start.signals) + fetch_ops(
        start.address,
        start.signals,
        start.rs,
    );
    if n == 0 {
        let done = start.next_byte().0;
        assert(done.phase == ReadPhase::Done);
        assert(start.replay(script) == done.replay(script));
        assert(done.replay(script).0 == Seq::<BusOp>::empty());
        assert(done.replay(script).1 == Ok::<Seq<u8>, CharacterDisplayError>(start.bytes));
        assert(start.bytes + bytes_of_script(script, n, start.mask) =~= start.bytes);
        assert(repeated(round, n) =~= Seq::<BusOp>::empty());
    } else {
        let polling = ReadState { phase: ReadPhase::Polling, ..start };
        assert(start.next_byte().0 == polling);
        assert(start.replay(script) == polling.replay(script));
        assert(!busy_flag(script[3 * 0int]));
        lemma_replay_byte(polling, script);
        let next = polling.with_byte(script[1], script[2]);
        let tail = script.skip(3);
        assert(never_busy(tail, (n - 1) as nat)) by {
            assert forall|k: int| 0 <= k < n - 1 implies !busy_flag(#[trigger] tail[3 * k]) by {
                assert(tail[3 * k] == script[3 * (k + 1)]);
            }
        }
        lemma_read_never_busy(next, tail);
        let shorter = bytes_of_script(tail, (n - 1) as nat, start.mask);
        let longer = bytes_of_script(script, n, start.mask);
        assert(next.bytes + shorter =~= start.bytes + longer) by {
            assert(longer[0] == masked(joined(script[1], script[2]), start.mask));
            assert forall|k: int| 0 <= k < n - 1 implies #[trigger] shorter[k] == longer[k + 1] by {
                assert(tail[3 * k + 1] == script[3 * (k + 1) + 1]);
                assert(tail[3 * k + 2] == script[3 * (k + 1) + 2]);
            }
        }
        assert(next.replay(tail).0 == repeated(round, (n - 1) as nat));
        assert(polling.replay(script).0 == round + repeated(round, (n - 1) as nat));
        assert(repeated(round, n) == round + repeated(round, (n - 1) as nat));
    }
}

} // verus!
