//! Length-prefixed messages on a byte stream.
//!
//! One message on the wire is the length of its payload, written as an
//! unsigned integer of a fixed number of bytes, followed by the payload. How
//! many bytes the prefix has and in which order they stand is fixed by the
//! guest image that the host talks to, so both are parameters here.

use vstd::prelude::*;
use vstd::slice::{slice_subrange, slice_to_vec};
use crate::error::LaunchError;

verus! {

/// The order in which the bytes of the length prefix stand.
#[derive(Debug, Clone, Copy, PartialEq, Eq, Structural)]
pub enum ByteOrder {
    /// The least significant byte first.
    LittleEndian,
    /// The most significant byte first.
    BigEndian,
}

/// The widest length prefix, in bytes.
pub const MAX_PREFIX_WIDTH: usize = 8;

/// The number of lengths that a prefix of `width` bytes can tell apart.
pub open spec fn radix_capacity(width: nat) -> nat
    decreases width,
{
    if width == 0 {
        1
    } else {
        256 * radix_capacity((width - 1) as nat)
    }
}

/// The `width` low base-256 digits of `n`, the lowest first.
pub open spec fn le_digits(n: nat, width: nat) -> Seq<u8>
    decreases width,
{
    if width == 0 {
        Seq::<u8>::empty()
    } else {
        seq![(n % 256) as u8] + le_digits(n / 256, (width - 1) as nat)
    }
}

/// The number whose base-256 digits are `s`, the lowest first.
pub open spec fn le_value(s: Seq<u8>) -> nat
    decreases s.len(),
{
    if s.len() == 0 {
        0
    } else {
        s[0] as nat + 256 * le_value(s.drop_first())
    }
}

/// The length `n` as a prefix of `width` bytes.
pub open spec fn length_prefix(n: nat, width: nat, order: ByteOrder) -> Seq<u8> {
    match order {
        ByteOrder::LittleEndian => le_digits(n, width),
        ByteOrder::BigEndian => le_digits(n, width).reverse(),
    }
}

/// The length that a prefix stands for.
pub open spec fn prefix_value(prefix: Seq<u8>, order: ByteOrder) -> nat {
    match order {
        ByteOrder::LittleEndian => le_value(prefix),
        ByteOrder::BigEndian => le_value(prefix.reverse()),
    }
}

/// A payload as one message on the wire.
pub open spec fn frame_bytes(payload: Seq<u8>, width: nat, order: ByteOrder) -> Seq<u8> {
    length_prefix(payload.len(), width, order) + payload
}

/// What a receiver makes of a complete prefix: the length of the payload
/// to read next, or a protocol violation where that length is over `max`.
/// Fewer or more bytes than the prefix has mean that the stream ended
/// within it.
pub open spec fn parse_length(prefix: Seq<u8>, width: nat, order: ByteOrder, max: nat) -> Result<
    nat,
    LaunchError,
> {
    if prefix.len() != width {
        Err(LaunchError::ConnectionClosed)
    } else if prefix_value(prefix, order) > max {
        Err(LaunchError::ProtocolViolation)
    } else {
        Ok(prefix_value(prefix, order))
    }
}

/// What a receiver makes of all the bytes that a stream held until it was
/// closed: the payload of the first message and the number of bytes that
/// the message took. A stream that ends within the prefix or within the
/// payload is a closed connection; a length over `max` is a protocol
/// violation, whatever follows the prefix.
pub open spec fn parse_frame(bytes: Seq<u8>, width: nat, order: ByteOrder, max: nat) -> Result<
    (Seq<u8>, nat),
    LaunchError,
> {
    if bytes.len() < width {
        Err(LaunchError::ConnectionClosed)
    } else {
        match parse_length(bytes.subrange(0, width as int), width, order, max) {
            Err(e) => Err(e),
            Ok(n) => if bytes.len() < width + n {
                Err(LaunchError::ConnectionClosed)
            } else {
                Ok((bytes.subrange(width as int, (width + n) as int), width + n))
            },
        }
    }
}

/// How messages are framed on one stream: the width and byte order of the
/// length prefix, and the longest payload that is accepted on receipt.
#[derive(Debug, Clone, Copy, PartialEq, Eq)]
pub struct FrameFormat {
    prefix_width: usize,
    byte_order: ByteOrder,
    max_payload: usize,
}

impl FrameFormat {
    /// The prefix has one to eight bytes, and can express the longest
    /// payload that is accepted.
    #[verifier::type_invariant]
    pub open spec fn wf(&self) -> bool {
        &&& 1 <= self.width() <= MAX_PREFIX_WIDTH
        &&& self.max() < radix_capacity(self.width())
    }

    /// The number of bytes of the prefix.
    pub closed spec fn width(&self) -> nat {
        self.prefix_width as nat
    }

    /// The order of the bytes of the prefix.
    pub closed spec fn order(&self) -> ByteOrder {
        self.byte_order
    }

    /// The longest payload that is accepted on receipt.
    pub closed spec fn max(&self) -> nat {
        self.max_payload as nat
    }

    /// A format with the given parameters, where the prefix has one to eight
    /// bytes and can express `max_payload`.
    pub fn new(prefix_width: usize, byte_order: ByteOrder, max_payload: usize) -> (format: Option<
        FrameFormat,
    >)
        ensures
            format is Some <==> 1 <= prefix_width <= MAX_PREFIX_WIDTH && max_payload
                < radix_capacity(prefix_width as nat),
            format is Some ==> {
                &&& format->Some_0.wf()
                &&& format->Some_0.width() == prefix_width
                &&& format->Some_0.order() == byte_order
                &&& format->Some_0.max() == max_payload
            },
    {
        if prefix_width < 1 || prefix_width > MAX_PREFIX_WIDTH {
            return None;
        }
        let (_, fits) = digits_of(max_payload, prefix_width);
        if fits {
            Some(FrameFormat { prefix_width, byte_order, max_payload })
        } else {
            None
        }
    }

    /// The number of bytes of the prefix.
    pub fn prefix_width(&self) -> (width: usize)
        ensures
            width == self.width(),
            1 <= width <= MAX_PREFIX_WIDTH,
    {
        proof {
            use_type_invariant(self);
        }
        self.prefix_width
    }

    /// The order of the bytes of the prefix.
    pub fn byte_order(&self) -> (order: ByteOrder)
        ensures
            order == self.order(),
    {
        self.byte_order
    }

    /// The longest payload that is accepted on receipt.
    pub fn max_payload(&self) -> (max: usize)
        ensures
            max == self.max(),
            max < radix_capacity(self.width()),
    {
        proof {
            use_type_invariant(self);
        }
        self.max_payload
    }

    /// The prefix for a payload of `n` bytes, or `None` where the prefix is
    /// too narrow for `n`.
    pub fn encode_length(&self, n: usize) -> (prefix: Option<Vec<u8>>)
        ensures
            self.wf(),
            n < radix_capacity(self.width()) ==> prefix is Some && prefix->Some_0@
                == length_prefix(n as nat, self.width(), self.order()),
            n >= radix_capacity(self.width()) ==> prefix is None,
    {
        proof {
            use_type_invariant(self);
        }
        let width = self.prefix_width;
        let (digits, fits) = digits_of(n, width);
        if !fits {
            return None;
        }
        match self.byte_order {
            ByteOrder::LittleEndian => Some(digits),
            ByteOrder::BigEndian => {
                let mut out: Vec<u8> = Vec::new();
                let mut i: usize = 0;
                while i < width
                    invariant
                        i <= width,
                        digits.len() == width,
                        out.len() == i,
                        forall|j: int| 0 <= j < i ==> out[j] == digits[width - 1 - j],
                    decreases width - i,
                {
                    out.push(digits[width - 1 - i]);
                    i += 1;
                }
                assert(out@ == digits@.reverse());
                Some(out)
            },
        }
    }

    /// Reads a complete prefix: the length of the payload that follows, a
    /// protocol violation where that length is over the accepted maximum, a
    /// closed connection where the bytes are not a whole prefix.
    pub fn decode_length(&self, prefix: &[u8]) -> (length: Result<usize, LaunchError>)
        ensures
            self.wf(),
            match parse_length(prefix@, self.width(), self.order(), self.max()) {
                Ok(n) => length == Ok::<usize, LaunchError>(n as usize) && n <= self.max(),
                Err(e) => length == Err::<usize, LaunchError>(e),
            },
    {
        proof {
            use_type_invariant(self);
        }
        let width = self.prefix_width;
        if prefix.len() != width {
            return Err(LaunchError::ConnectionClosed);
        }
        let ghost digits = match self.byte_order {
            ByteOrder::LittleEndian => prefix@,
            ByteOrder::BigEndian => prefix@.reverse(),
        };
        let mut value: u64 = 0;
        let mut i: usize = width;
        proof {
            assert(digits.skip(width as int) == Seq::<u8>::empty());
            lemma_capacity_of_eight();
        }
        while i > 0
            invariant
                i <= width <= MAX_PREFIX_WIDTH,
                width == self.prefix_width,
                prefix.len() == width,
                digits.len() == width,
                digits == match self.byte_order {
                    ByteOrder::LittleEndian => prefix@,
                    ByteOrder::BigEndian => prefix@.reverse(),
                },
                value == le_value(digits.skip(i as int)),
                value < radix_capacity((width - i) as nat),
            decreases i,
        {
            i -= 1;
            let digit = match self.byte_order {
                ByteOrder::LittleEndian => prefix[i],
                ByteOrder::BigEndian => prefix[width - 1 - i],
            };
            proof {
                assert(digit == digits[i as int]);
                assert(digits.skip(i as int).drop_first() == digits.skip(i + 1));
                lemma_capacity_grows((width - i - 1) as nat, 7);
                lemma_capacity_of_eight();
            }
            value = value * 256 + digit as u64;
        }
        assert(digits.skip(0) == digits);
        if value > self.max_payload as u64 {
            Err(LaunchError::ProtocolViolation)
        } else {
            Ok(value as usize)
        }
    }

    /// Frames a payload: its length as a prefix, then the payload. `None`
    /// where the prefix is too narrow for the payload's length.
    pub fn encode_frame(&self, payload: &[u8]) -> (frame: Option<Vec<u8>>)
        ensures
            self.wf(),
            payload@.len() < radix_capacity(self.width()) ==> frame is Some && frame->Some_0@
                == frame_bytes(payload@, self.width(), self.order()),
            payload@.len() >= radix_capacity(self.width()) ==> frame is None,
    {
        match self.encode_length(payload.len()) {
            None => None,
            Some(mut frame) => {
                let mut body = slice_to_vec(payload);
                frame.append(&mut body);
                Some(frame)
            },
        }
    }

    /// Takes the first message off the bytes that a stream held until it was
    /// closed: its payload and the number of bytes that it took.
    pub fn decode_frame(&self, bytes: &[u8]) -> (message: Result<(Vec<u8>, usize), LaunchError>)
        ensures
            self.wf(),
            match parse_frame(bytes@, self.width(), self.order(), self.max()) {
                Ok((payload, used)) => message is Ok && message->Ok_0.0@ == payload
                    && message->Ok_0.1 == used && payload.len() <= self.max(),
                Err(e) => message == Err::<(Vec<u8>, usize), LaunchError>(e),
            },
    {
        proof {
            use_type_invariant(self);
        }
        let width = self.prefix_width;
        if bytes.len() < width {
            return Err(LaunchError::ConnectionClosed);
        }
        match self.decode_length(slice_subrange(bytes, 0, width)) {
            Err(e) => Err(e),
            Ok(n) => {
                if bytes.len() - width < n {
                    Err(LaunchError::ConnectionClosed)
                } else {
                    let payload = slice_to_vec(slice_subrange(bytes, width, width + n));
                    Ok((payload, width + n))
                }
            },
        }
    }
}

/// The `width` low base-256 digits of `n`, the lowest first, and whether
/// they are all of `n`.
fn digits_of(n: usize, width: usize) -> (found: (Vec<u8>, bool))
    requires
        width <= MAX_PREFIX_WIDTH,
    ensures
        found.0@ == le_digits(n as nat, width as nat),
        found.0.len() == width,
        found.1 == (n < radix_capacity(width as nat)),
{
    let mut digits: Vec<u8> = Vec::new();
    let mut rest: u64 = n as u64;
    let mut i: usize = 0;
    while i < width
        invariant
            i <= width,
            digits.len() == i,
            le_digits(n as nat, width as nat) == digits@ + le_digits(
                rest as nat,
                (width - i) as nat,
            ),
            (n < radix_capacity(width as nat)) == (rest < radix_capacity((width - i) as nat)),
        decreases width - i,
    {
        let ghost before = digits@;
        digits.push((rest % 256) as u8);
        proof {
            assert(digits@ + le_digits((rest / 256) as nat, (width - i - 1) as nat) == before
                + le_digits(rest as nat, (width - i) as nat));
        }
        rest = rest / 256;
        i += 1;
    }
    assert(digits@ + Seq::<u8>::empty() == digits@);
    (digits, rest == 0)
}

/// Eight bytes of prefix tell apart 2^64 lengths.
pub proof fn lemma_capacity_of_eight()
    ensures
        radix_capacity(7) == 0x100_0000_0000_0000,
        radix_capacity(MAX_PREFIX_WIDTH as nat) == 0x1_0000_0000_0000_0000,
{
    reveal_with_fuel(radix_capacity, 9);
}

/// A wider prefix tells apart more lengths.
pub proof fn lemma_capacity_grows(narrower: nat, wider: nat)
    requires
        narrower <= wider,
    ensures
        1 <= radix_capacity(narrower) <= radix_capacity(wider),
    decreases wider,
{
    if wider > 0 {
        if narrower == wider {
            lemma_capacity_grows((narrower - 1) as nat, (wider - 1) as nat);
        } else {
            lemma_capacity_grows(narrower, (wider - 1) as nat);
        }
    }
}

/// The digits of a length are as many as asked for.
pub proof fn lemma_le_digits_len(n: nat, width: nat)
    ensures
        le_digits(n, width).len() == width,
    decreases width,
{
    if width > 0 {
        lemma_le_digits_len(n / 256, (width - 1) as nat);
    }
}

/// The digits of a length that the width can express stand for that
/// length.
pub proof fn lemma_le_roundtrip(n: nat, width: nat)
    requires
        n < radix_capacity(width),
    ensures
        le_value(le_digits(n, width)) == n,
    decreases width,
{
    if width > 0 {
        let digits = le_digits(n, width);
        lemma_le_digits_len(n / 256, (width - 1) as nat);
        assert(digits.drop_first() == le_digits(n / 256, (width - 1) as nat));
        lemma_le_roundtrip(n / 256, (width - 1) as nat);
    }
}

/// Reading a prefix gives back the length that it was written for.
pub proof fn lemma_prefix_roundtrip(n: nat, width: nat, order: ByteOrder)
    requires
        n < radix_capacity(width),
    ensures
        length_prefix(n, width, order).len() == width,
        prefix_value(length_prefix(n, width, order), order) == n,
{
    lemma_le_digits_len(n, width);
    lemma_le_roundtrip(n, width);
    let digits = le_digits(n, width);
    assert(digits.reverse().reverse() == digits);
}

/// A message that was framed is received as it was sent, whatever follows
/// it on the stream, where its payload is no longer than the accepted
/// maximum; a longer one is refused as a protocol violation. This holds of
/// every payload whose length the prefix can express.
pub proof fn law_frame_roundtrip(
    payload: Seq<u8>,
    rest: Seq<u8>,
    width: nat,
    order: ByteOrder,
    max: nat,
)
    requires
        payload.len() < radix_capacity(width),
    ensures
        payload.len() <= max ==> parse_frame(
            frame_bytes(payload, width, order) + rest,
            width,
            order,
            max,
        ) == Ok::<(Seq<u8>, nat), LaunchError>((payload, width + payload.len())),
        payload.len() > max ==> parse_frame(
            frame_bytes(payload, width, order) + rest,
            width,
            order,
            max,
        ) == Err::<(Seq<u8>, nat), LaunchError>(LaunchError::ProtocolViolation),
{
    let n = payload.len();
    let prefix = length_prefix(n, width, order);
    let bytes = frame_bytes(payload, width, order) + rest;
    lemma_prefix_roundtrip(n, width, order);
    assert(bytes.subrange(0, width as int) == prefix);
    assert(bytes.subrange(width as int, (width + n) as int) == payload);
}

/// A frame is its payload behind a prefix of the format's width: nothing
/// is added to the payload and nothing is taken from it.
pub proof fn law_frame_holds_payload(payload: Seq<u8>, width: nat, order: ByteOrder)
    ensures
        frame_bytes(payload, width, order).len() == width + payload.len(),
        frame_bytes(payload, width, order).skip(width as int) == payload,
{
    lemma_le_digits_len(payload.len(), width);
    let frame = frame_bytes(payload, width, order);
    assert(frame.skip(width as int) == payload);
}

} // verus!
