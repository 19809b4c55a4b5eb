//! I2C transaction compiler.
//!
//! A transaction is an ordered list of logical operations (read N bytes /
//! write these bytes) against one 7-bit target address. The compiler turns
//! that list into the wire messages the bus controller consumes, computing
//! for each message whether the automatic start condition must be suppressed
//! (the previous operation had the same direction) and whether the automatic
//! stop condition must be suppressed (more operations follow).

use vstd::prelude::*;

verus! {

/// Flag bit marking a message as a read transfer.
pub const IIC_M_RD: u16 = 0x01;
/// Flag bit for a write transfer (no bit set).
pub const IIC_M_WR: u16 = 0x00;
/// Flag bit suppressing the automatic stop condition after a message.
pub const IIC_M_NOSTOP: u16 = 0x02;
/// Flag bit suppressing the automatic (repeated) start condition before a message.
pub const IIC_M_NOSTART: u16 = 0x04;

/// An I2C target address is a 7-bit value.
pub open spec fn valid_i2c_address(address: u8) -> bool {
    address < 128
}

/// Transfer direction of one bus message.
#[derive(Clone, Copy, PartialEq, Eq, Structural, Debug)]
pub enum Direction {
    Read,
    Write,
}

/// One logical operation of a transaction: read a given number of bytes,
/// or write the given bytes. The target address is supplied once per
/// transaction, not per operation.
pub enum Operation {
    Read(u16),
    Write(Vec<u8>),
}

/// Mathematical model of one logical operation.
#[verifier::ext_equal]
pub ghost struct OpModel {
    pub direction: Direction,
    pub len: nat,
    pub data: Seq<u8>,
}

impl View for Operation {
    type V = OpModel;

    open spec fn view(&self) -> OpModel {
        match self {
            Operation::Read(n) => OpModel {
                direction: Direction::Read,
                len: *n as nat,
                data: Seq::empty(),
            },
            Operation::Write(bytes) => OpModel {
                direction: Direction::Write,
                len: bytes@.len(),
                data: bytes@,
            },
        }
    }
}

impl Operation {
    /// Transfer direction of this operation.
    pub fn direction(&self) -> (r: Direction)
        ensures
            r == self@.direction,
    {
        match self {
            Operation::Read(_) => Direction::Read,
            Operation::Write(_) => Direction::Write,
        }
    }
}

/// One compiled bus message: target address, direction, framing flags,
/// transfer length and (for writes) the payload.
pub struct WireMsg {
    pub address: u8,
    pub direction: Direction,
    pub suppress_start: bool,
    pub suppress_stop: bool,
    pub len: u16,
    pub data: Vec<u8>,
}

/// Mathematical model of one compiled bus message.
#[verifier::ext_equal]
pub ghost struct WireMsgModel {
    pub address: u8,
    pub direction: Direction,
    pub suppress_start: bool,
    pub suppress_stop: bool,
    pub len: nat,
    pub data: Seq<u8>,
}

impl View for WireMsg {
    type V = WireMsgModel;

    open spec fn view(&self) -> WireMsgModel {
        WireMsgModel {
            address: self.address,
            direction: self.direction,
            suppress_start: self.suppress_start,
            suppress_stop: self.suppress_stop,
            len: self.len as nat,
            data: self.data@,
        }
    }
}

/// Models of a whole operation list.
pub open spec fn models(ops: Seq<Operation>) -> Seq<OpModel> {
    ops.map_values(|op: Operation| op@)
}

/// The start condition before operation `i` is suppressed exactly when the
/// immediately preceding operation has the same direction; a direction change
/// (and the very first operation) always gets a start condition.
pub open spec fn suppress_start_at(ops: Seq<OpModel>, i: int) -> bool {
    0 < i && ops[i - 1].direction == ops[i].direction
}

/// The stop condition after operation `i` is suppressed exactly when more
/// operations follow; only the last message allows a stop condition.
pub open spec fn suppress_stop_at(ops: Seq<OpModel>, i: int) -> bool {
    i + 1 < ops.len()
}

/// The message compiled for operation `i` of the list.
pub open spec fn compiled_message(address: u8, ops: Seq<OpModel>, i: int) -> WireMsgModel {
    WireMsgModel {
        address: address,
        direction: ops[i].direction,
        suppress_start: suppress_start_at(ops, i),
        suppress_stop: suppress_stop_at(ops, i),
        len: ops[i].len,
        data: ops[i].data,
    }
}

/// The whole compiled message list: one message per operation, in order.
pub open spec fn compile_spec(address: u8, ops: Seq<OpModel>) -> Seq<WireMsgModel> {
    Seq::new(ops.len(), |i: int| compiled_message(address, ops, i))
}

fn copy_bytes(v: &Vec<u8>) -> (r: Vec<u8>)
    ensures
        r@ == v@,
{
    let mut r: Vec<u8> = Vec::new();
    let mut i: usize = 0;
    while i < v.len()
        invariant
            i <= v@.len(),
            r@ == v@.subrange(0, i as int),
        decreases v@.len() - i,
    {
        r.push(v[i]);
        proof {
            assert(r@ =~= v@.subrange(0, i + 1 as int));
        }
        i += 1;
    }
    proof {
        assert(r@ =~= v@);
    }
    r
}

/// Compile a transaction: one wire message per logical operation, with the
/// start/stop suppression flags inferred from the list's adjacency structure.
/// An empty operation list compiles to an empty message list.
pub fn compile(address: u8, ops: &Vec<Operation>) -> (r: Vec<WireMsg>)
    requires
        valid_i2c_address(address),
        forall|i: int| 0 <= i < ops@.len() ==> (#[trigger] ops@[i])@.len <= u16::MAX,
    ensures
        r@.len() == ops@.len(),
        forall|i: int|
            0 <= i < r@.len() ==> (#[trigger] r@[i])@ == compiled_message(
                address,
                models(ops@),
                i,
            ),
{
    let mut msgs: Vec<WireMsg> = Vec::new();
    let mut prev: Option<Direction> = None;
    let mut i: usize = 0;
    while i < ops.len()
        invariant
            i <= ops@.len(),
            forall|j: int| 0 <= j < ops@.len() ==> (#[trigger] ops@[j])@.len <= u16::MAX,
            msgs@.len() == i,
            forall|j: int|
                0 <= j < i ==> (#[trigger] msgs@[j])@ == compiled_message(
                    address,
                    models(ops@),
                    j,
                ),
            i == 0 <==> prev is None,
            i > 0 ==> prev == Some(ops@[i - 1]@.direction),
        decreases ops@.len() - i,
    {
        let op = &ops[i];
        let direction = op.direction();
        let suppress_start = match prev {
            Some(p) => p == direction,
            None => false,
        };
        let suppress_stop = i + 1 < ops.len();
        let (len, data): (u16, Vec<u8>) = match op {
            Operation::Read(n) => (*n, Vec::new()),
            Operation::Write(bytes) => (bytes.len() as u16, copy_bytes(bytes)),
        };
        let msg = WireMsg { address, direction, suppress_start, suppress_stop, len, data };
        proof {
            assert(msg@ =~= compiled_message(address, models(ops@), i as int));
        }
        msgs.push(msg);
        prev = Some(direction);
        i += 1;
    }
    msgs
}

/// The flags word of a compiled message as the native transport encodes it:
/// bit 0 marks a read transfer, bit 1 suppresses the stop condition, bit 2
/// suppresses the start condition. The three bits are disjoint, so the word
/// is the sum of the flags that apply.
pub open spec fn flags_word(direction: Direction, suppress_start: bool, suppress_stop: bool) -> int {
    (if direction == Direction::Read {
        IIC_M_RD
    } else {
        IIC_M_WR
    }) + (if suppress_stop {
        IIC_M_NOSTOP
    } else {
        0
    }) + (if suppress_start {
        IIC_M_NOSTART
    } else {
        0
    })
}

impl WireMsg {
    /// The address field as the native transport encodes it: the 7-bit
    /// target address shifted left by one into the 16-bit field.
    pub fn encoded_address(&self) -> (r: u16)
        ensures
            r == (self@.address as u16) * 2,
    {
        (self.address as u16) * 2
    }

    /// The flags field as the native transport encodes it.
    pub fn encoded_flags(&self) -> (r: u16)
        ensures
            r == flags_word(self@.direction, self@.suppress_start, self@.suppress_stop),
    {
        let d = if let Direction::Read = self.direction {
            IIC_M_RD
        } else {
            IIC_M_WR
        };
        let stop_bit = if self.suppress_stop {
            IIC_M_NOSTOP
        } else {
            0
        };
        let start_bit = if self.suppress_start {
            IIC_M_NOSTART
        } else {
            0
        };
        d + stop_bit + start_bit
    }
}

/// Compile the one-message transaction that reads `len` bytes: no framing
/// flag is ever suppressed on a lone message.
pub fn compile_read(address: u8, len: u16) -> (r: Vec<WireMsg>)
    requires
        valid_i2c_address(address),
    ensures
        r@.len() == 1,
        r@[0]@ == (WireMsgModel {
            address,
            direction: Direction::Read,
            suppress_start: false,
            suppress_stop: false,
            len: len as nat,
            data: Seq::empty(),
        }),
{
    let ops = vec![Operation::Read(len)];
    let r = compile(address, &ops);
    proof {
        assert(r@[0]@ =~= compiled_message(address, models(ops@), 0));
    }
    r
}

/// Compile the one-message transaction that writes `bytes`: no framing
/// flag is ever suppressed on a lone message.
pub fn compile_write(address: u8, bytes: &Vec<u8>) -> (r: Vec<WireMsg>)
    requires
        valid_i2c_address(address),
        bytes@.len() <= u16::MAX,
    ensures
        r@.len() == 1,
        r@[0]@ == (WireMsgModel {
            address,
            direction: Direction::Write,
            suppress_start: false,
            suppress_stop: false,
            len: bytes@.len(),
            data: bytes@,
        }),
{
    let ops = vec![Operation::Write(copy_bytes(bytes))];
    let r = compile(address, &ops);
    proof {
        assert(r@[0]@ =~= compiled_message(address, models(ops@), 0));
    }
    r
}

/// Compile the two-message write-then-read transaction (the common
/// "register address, then value" idiom): the write suppresses its stop so
/// the hardware issues a repeated start, and the read both opens with that
/// start and closes the transaction with a stop.
pub fn compile_write_then_read(address: u8, bytes: &Vec<u8>, read_len: u16) -> (r: Vec<WireMsg>)
    requires
        valid_i2c_address(address),
        bytes@.len() <= u16::MAX,
    ensures
        r@.len() == 2,
        r@[0]@ == (WireMsgModel {
            address,
            direction: Direction::Write,
            suppress_start: false,
            suppress_stop: true,
            len: bytes@.len(),
            data: bytes@,
        }),
        r@[1]@ == (WireMsgModel {
            address,
            direction: Direction::Read,
            suppress_start: false,
            suppress_stop: false,
            len: read_len as nat,
            data: Seq::empty(),
        }),
{
    let ops = vec![Operation::Write(copy_bytes(bytes)), Operation::Read(read_len)];
    let r = compile(address, &ops);
    proof {
        assert(r@[0]@ =~= compiled_message(address, models(ops@), 0));
        assert(r@[1]@ =~= compiled_message(address, models(ops@), 1));
    }
    r
}

/// The first message of a non-empty compiled transaction never suppresses
/// its start condition: a transaction always opens with a start condition.
pub proof fn lemma_first_message_has_start(address: u8, ops: Seq<OpModel>)
    requires
        ops.len() > 0,
    ensures
        !compile_spec(address, ops)[0].suppress_start,
{
}

/// A compiled message suppresses its stop condition exactly when more
/// operations follow: the last message allows a stop, every other one
/// suppresses it.
pub proof fn lemma_stop_only_after_last(address: u8, ops: Seq<OpModel>, i: int)
    requires
        0 <= i < ops.len(),
    ensures
        compile_spec(address, ops)[i].suppress_stop <==> i + 1 < ops.len(),
{
}

/// A compiled message suppresses its start condition exactly when the
/// previous operation has the same direction; a direction change always
/// gets a (repeated) start condition.
pub proof fn lemma_start_suppressed_on_same_direction(address: u8, ops: Seq<OpModel>, i: int)
    requires
        0 < i < ops.len(),
    ensures
        compile_spec(address, ops)[i].suppress_start <==> ops[i - 1].direction
            == ops[i].direction,
{
}

/// Compiling an empty operation list yields an empty message list.
pub proof fn lemma_empty_transaction_is_empty(address: u8, ops: Seq<OpModel>)
    requires
        ops.len() == 0,
    ensures
        compile_spec(address, ops).len() == 0,
{
}

/// Best-effort bus-level classification of a transport failure. Most
/// OS-level failure codes are ambiguous and collapse to `Other`.
#[derive(Clone, Copy, PartialEq, Eq, Structural, Debug)]
pub enum BusErrorKind {
    Bus,
    Overrun,
    Other,
}

/// Relies on libc::EALREADY, the platform's errno for "operation already in
/// progress". libc defines its value per target, so nothing is promised of
/// the value here; `classify_code` states the classification exactly for
/// whatever value the platform has.
#[verifier::external_body]
fn errno_already() -> i32 {
    libc::EALREADY
}

/// Relies on libc::EOVERFLOW, the platform's errno for "value too large".
/// libc defines its value per target, so nothing is promised of the value
/// here; `classify_code` states the classification exactly for whatever
/// value the platform has.
#[verifier::external_body]
fn errno_overflow() -> i32 {
    libc::EOVERFLOW
}

/// How a raw OS error code maps onto the bus-level taxonomy, given the two
/// distinguished codes of the platform: the bus-busy code means a bus error,
/// the overflow code an overrun, and everything else (including a failure
/// with no code at all) stays unclassified.
pub open spec fn kind_of_code(code: Option<i32>, bus_code: i32, overrun_code: i32) -> BusErrorKind {
    match code {
        Some(c) => if c == bus_code {
            BusErrorKind::Bus
        } else if c == overrun_code {
            BusErrorKind::Overrun
        } else {
            BusErrorKind::Other
        },
        None => BusErrorKind::Other,
    }
}

/// Classify a raw OS error code against the two distinguished codes —
/// bus-busy and overflow — that the platform reports.
pub fn classify_code(code: Option<i32>, bus_code: i32, overrun_code: i32) -> (r: BusErrorKind)
    ensures
        r == kind_of_code(code, bus_code, overrun_code),
{
    match code {
        Some(c) => if c == bus_code {
            BusErrorKind::Bus
        } else if c == overrun_code {
            BusErrorKind::Overrun
        } else {
            BusErrorKind::Other
        },
        None => BusErrorKind::Other,
    }
}

/// A failed bus transaction, carrying the raw OS error code if the
/// transport reported one.
#[derive(Clone, Copy, Debug)]
pub struct I2cError {
    code: Option<i32>,
}

impl I2cError {
    /// The raw OS error code behind this failure, if any.
    pub closed spec fn code_spec(&self) -> Option<i32> {
        self.code
    }

    /// Wrap the raw OS error code the transport reported, if any.
    pub fn from_os_code(code: Option<i32>) -> (r: I2cError)
        ensures
            r.code_spec() == code,
    {
        I2cError { code }
    }

    /// The raw OS error code behind this failure, if any.
    pub fn code(&self) -> (r: Option<i32>)
        ensures
            r == self.code_spec(),
    {
        self.code
    }

    /// Classify this failure into the bus-level taxonomy, against the codes
    /// the platform's libc defines. Those codes differ per target and so
    /// cannot be pinned here; `classify_code` states the classification
    /// exactly for explicitly given codes, and a failure that carries no
    /// code at all is unclassified on every platform.
    pub fn kind(&self) -> (r: BusErrorKind)
        ensures
            self.code_spec() is None ==> r == BusErrorKind::Other,
    {
        classify_code(self.code, errno_already(), errno_overflow())
    }
}

} // verus!
