//! Shared NFC protocol primitives for e-ink display communication.
//!
//! This module contains the types, constants and command builders used by
//! both protocol variants. Every command of the wire protocol begins with a
//! fixed class byte `0x74` followed by an instruction byte; responses carry a
//! two-byte status word trailer, where `0x90 0x00` denotes success.
//!
//! The builders here only construct command frames as byte vectors; the
//! actual ISO-DEP exchange is owned by the event loop that drives a protocol
//! state machine.

use vstd::prelude::*;

verus! {

/// Display width in pixels (shared by the 1.54 inch displays).
pub const DISPLAY_WIDTH: usize = 200;

/// Display height in pixels.
pub const DISPLAY_HEIGHT: usize = 200;

/// Total packed image size in bytes: 200 * 200 * 2 bits / 8 for the 4-color
/// format; the 3-color format uses the same total as two 5,000-byte planes.
pub const IMAGE_DATA_SIZE: usize = 10_000;

/// Size in bytes of one plane (B/W or Red) of the dual-buffer 3-color layout.
pub const PLANE_SIZE: usize = 5_000;

/// Chunk size for bulk data transfer, constrained by the ISO 14443-4 frame
/// size limit of the transport.
pub const CHUNK_SIZE: usize = 64;

/// Number of data packets for a single-buffer transfer (4-color format).
pub const NUM_PACKETS: usize = (IMAGE_DATA_SIZE + CHUNK_SIZE - 1) / CHUNK_SIZE;

/// Number of data packets per plane for a dual-buffer transfer (3-color format).
pub const NUM_PACKETS_PER_BUFFER: usize = (PLANE_SIZE + CHUNK_SIZE - 1) / CHUNK_SIZE;

/// NFC operation errors.
#[derive(Debug, Clone, Copy, PartialEq, Eq, Structural)]
pub enum NfcError {
    /// Tag detection failed
    DetectFailed,
    /// Command transmission failed
    TransmitFailed,
    /// Allocation failed
    AllocFailed,
}

// ---------------------------------------------------------------------------
// Fixed command frames
// ---------------------------------------------------------------------------

/// Authentication/init command: 74 B1 00 00 08 00 11 22 33 44 55 66 77.
pub open spec fn spec_init_cmd() -> Seq<u8> {
    seq![0x74u8, 0xB1, 0x00, 0x00, 0x08, 0x00, 0x11, 0x22, 0x33, 0x44, 0x55, 0x66, 0x77]
}

/// GPIO/power control step 0: 74 97 00 08 00.
pub open spec fn spec_gpio_0_cmd() -> Seq<u8> {
    seq![0x74u8, 0x97, 0x00, 0x08, 0x00]
}

/// GPIO/power control step 1: 74 97 01 08 00.
pub open spec fn spec_gpio_1_cmd() -> Seq<u8> {
    seq![0x74u8, 0x97, 0x01, 0x08, 0x00]
}

/// Read busy status: 74 9B 00 0F 01.
pub open spec fn spec_read_status_cmd() -> Seq<u8> {
    seq![0x74u8, 0x9B, 0x00, 0x0F, 0x01]
}

/// Builds the authentication/init command.
pub fn build_init() -> (v: Vec<u8>)
    ensures
        v@ == spec_init_cmd(),
{
    let mut v: Vec<u8> = Vec::new();
    v.push(0x74);
    v.push(0xB1);
    v.push(0x00);
    v.push(0x00);
    v.push(0x08);
    v.push(0x00);
    v.push(0x11);
    v.push(0x22);
    v.push(0x33);
    v.push(0x44);
    v.push(0x55);
    v.push(0x66);
    v.push(0x77);
    proof {
        assert(v@ =~= spec_init_cmd());
    }
    v
}

/// Builds the first GPIO/power control command.
pub fn build_gpio_0() -> (v: Vec<u8>)
    ensures
        v@ == spec_gpio_0_cmd(),
{
    let mut v: Vec<u8> = Vec::new();
    v.push(0x74);
    v.push(0x97);
    v.push(0x00);
    v.push(0x08);
    v.push(0x00);
    proof {
        assert(v@ =~= spec_gpio_0_cmd());
    }
    v
}

/// Builds the second GPIO/power control command.
pub fn build_gpio_1() -> (v: Vec<u8>)
    ensures
        v@ == spec_gpio_1_cmd(),
{
    let mut v: Vec<u8> = Vec::new();
    v.push(0x74);
    v.push(0x97);
    v.push(0x01);
    v.push(0x08);
    v.push(0x00);
    proof {
        assert(v@ =~= spec_gpio_1_cmd());
    }
    v
}

/// Builds the read-busy-status command.
pub fn build_read_status() -> (v: Vec<u8>)
    ensures
        v@ == spec_read_status_cmd(),
{
    let mut v: Vec<u8> = Vec::new();
    v.push(0x74);
    v.push(0x9B);
    v.push(0x00);
    v.push(0x0F);
    v.push(0x01);
    proof {
        assert(v@ =~= spec_read_status_cmd());
    }
    v
}

// ---------------------------------------------------------------------------
// Parameterised command frames
// ---------------------------------------------------------------------------

/// The fixed 6-byte select-register command with the register id embedded:
/// 74 99 00 0D 01 REG.
pub open spec fn spec_select_register_cmd(reg: u8) -> Seq<u8> {
    seq![0x74u8, 0x99, 0x00, 0x0D, 0x01, reg]
}

/// The 5-byte header of a write-data command carrying `len` payload bytes:
/// 74 9A 00 0E LEN.
pub open spec fn spec_write_data_header(len: u8) -> Seq<u8> {
    seq![0x74u8, 0x9A, 0x00, 0x0E, len]
}

/// The write-data command for a given payload: header plus payload verbatim.
pub open spec fn spec_write_data_cmd(data: Seq<u8>) -> Seq<u8> {
    spec_write_data_header(data.len() as u8) + data
}

/// Builds a select-register command.
pub fn build_select_register(reg: u8) -> (v: Vec<u8>)
    ensures
        v@ == spec_select_register_cmd(reg),
{
    let mut v: Vec<u8> = Vec::new();
    v.push(0x74);
    v.push(0x99);
    v.push(0x00);
    v.push(0x0D);
    v.push(0x01);
    v.push(reg);
    proof {
        assert(v@ =~= spec_select_register_cmd(reg));
    }
    v
}

/// Builds a write-data command with a length-prefixed payload.
pub fn build_write_data(data: &Vec<u8>) -> (v: Vec<u8>)
    requires
        data@.len() <= 255,
    ensures
        v@ == spec_write_data_cmd(data@),
{
    let mut v: Vec<u8> = Vec::new();
    v.push(0x74);
    v.push(0x9A);
    v.push(0x00);
    v.push(0x0E);
    v.push(data.len() as u8);
    let mut i: usize = 0;
    while i < data.len()
        invariant
            i <= data@.len(),
            data@.len() <= 255,
            v@ == spec_write_data_header(data@.len() as u8) + data@.subrange(0, i as int),
        decreases data@.len() - i,
    {
        v.push(data[i]);
        proof {
            assert(v@ =~= spec_write_data_header(data@.len() as u8)
                + data@.subrange(0, i + 1 as int));
        }
        i = i + 1;
    }
    proof {
        assert(data@.subrange(0, data@.len() as int) =~= data@);
    }
    v
}

/// The data-packet command carrying `chunk_len` image bytes starting at
/// `offset`: a write-data command whose payload is that slice of the image.
pub open spec fn spec_image_packet_cmd(image: Seq<u8>, offset: int, chunk_len: int) -> Seq<u8> {
    spec_write_data_cmd(image.subrange(offset, offset + chunk_len))
}

/// Builds a data-packet command from a slice of the packed image buffer.
pub fn build_image_packet(image: &Vec<u8>, offset: usize, chunk_len: usize) -> (v: Vec<u8>)
    requires
        offset + chunk_len <= image@.len(),
        chunk_len <= 255,
    ensures
        v@ == spec_image_packet_cmd(image@, offset as int, chunk_len as int),
{
    let image_len = image.len();
    let mut v: Vec<u8> = Vec::new();
    v.push(0x74);
    v.push(0x9A);
    v.push(0x00);
    v.push(0x0E);
    v.push(chunk_len as u8);
    let mut i: usize = 0;
    while i < chunk_len
        invariant
            i <= chunk_len,
            offset + chunk_len <= image_len,
            image_len == image@.len(),
            chunk_len <= 255,
            v@ == spec_write_data_header(chunk_len as u8)
                + image@.subrange(offset as int, offset + i as int),
        decreases chunk_len - i,
    {
        v.push(image[offset + i]);
        proof {
            assert(v@ =~= spec_write_data_header(chunk_len as u8)
                + image@.subrange(offset as int, offset + i + 1 as int));
        }
        i = i + 1;
    }
    v
}

// ---------------------------------------------------------------------------
// Response interpretation
// ---------------------------------------------------------------------------

/// Whether a response indicates success: the two trailing bytes must be the
/// status word 0x90 0x00. A response shorter than two bytes is treated as
/// success, because some commands carry no meaningful status trailer.
pub open spec fn spec_status_ok(rx: Seq<u8>) -> bool {
    if rx.len() < 2 {
        true
    } else {
        rx[rx.len() - 2] == 0x90 && rx[rx.len() - 1] == 0x00
    }
}

/// Checks the trailing status word of a response.
pub fn response_status_ok(rx: &Vec<u8>) -> (r: bool)
    ensures
        r == spec_status_ok(rx@),
{
    if rx.len() < 2 {
        true
    } else {
        rx[rx.len() - 2] == 0x90 && rx[rx.len() - 1] == 0x00
    }
}

// ---------------------------------------------------------------------------
// Chunking
// ---------------------------------------------------------------------------

/// Number of chunks needed to carry `total` bytes, `CHUNK_SIZE` at a time,
/// the last chunk possibly short.
pub open spec fn spec_chunk_count(total: int) -> int {
    (total + CHUNK_SIZE - 1) / CHUNK_SIZE as int
}

/// Length of chunk `i` of a `total`-byte plane: the full chunk size, except
/// that the final chunk carries only the remaining bytes, never padded.
pub open spec fn spec_chunk_len(total: int, i: int) -> int {
    if total - i * CHUNK_SIZE < CHUNK_SIZE {
        total - i * CHUNK_SIZE
    } else {
        CHUNK_SIZE as int
    }
}

/// Chunk `i` of the `total` bytes of `data` starting at `base`.
pub open spec fn spec_chunk(data: Seq<u8>, base: int, total: int, i: int) -> Seq<u8> {
    data.subrange(base + i * CHUNK_SIZE, base + i * CHUNK_SIZE + spec_chunk_len(total, i))
}

/// Concatenation of the first `n` chunks, in emission order.
pub open spec fn spec_chunks_concat(data: Seq<u8>, base: int, total: int, n: int) -> Seq<u8>
    decreases n,
{
    if n <= 0 {
        Seq::empty()
    } else {
        spec_chunks_concat(data, base, total, n - 1) + spec_chunk(data, base, total, n - 1)
    }
}

/// Chunking completeness: concatenating every chunk of a plane, in emission
/// order, reconstructs the plane exactly.
pub proof fn lemma_chunks_reconstruct(data: Seq<u8>, base: int, total: int)
    requires
        0 <= base,
        0 < total,
        base + total <= data.len(),
    ensures
        spec_chunks_concat(data, base, total, spec_chunk_count(total))
            == data.subrange(base, base + total),
{
    let n = spec_chunk_count(total);
    lemma_chunks_concat_prefix(data, base, total, n);
    assert(n * CHUNK_SIZE >= total) by (nonlinear_arith)
        requires n == (total + CHUNK_SIZE - 1) / CHUNK_SIZE as int, total > 0, CHUNK_SIZE == 64;
}

/// The concatenation of the first `n` chunks is the prefix of the plane up to
/// `min(n * CHUNK_SIZE, total)`.
proof fn lemma_chunks_concat_prefix(data: Seq<u8>, base: int, total: int, n: int)
    requires
        0 <= base,
        0 < total,
        base + total <= data.len(),
        0 <= n,
        (n - 1) * CHUNK_SIZE < total,
    ensures
        spec_chunks_concat(data, base, total, n) == data.subrange(
            base,
            base + if n * CHUNK_SIZE < total { n * CHUNK_SIZE } else { total },
        ),
    decreases n,
{
    if n == 0 {
        assert(spec_chunks_concat(data, base, total, 0) =~= data.subrange(base, base));
    } else {
        assert((n - 2) * CHUNK_SIZE < (n - 1) * CHUNK_SIZE) by (nonlinear_arith)
            requires CHUNK_SIZE == 64;
        lemma_chunks_concat_prefix(data, base, total, n - 1);
        let prev_end = if (n - 1) * CHUNK_SIZE < total { (n - 1) * CHUNK_SIZE } else { total };
        assert(prev_end == (n - 1) * CHUNK_SIZE);
        let this_end = if n * CHUNK_SIZE < total { n * CHUNK_SIZE } else { total };
        assert((n - 1) * CHUNK_SIZE + CHUNK_SIZE == n * CHUNK_SIZE) by (nonlinear_arith);
        assert(spec_chunks_concat(data, base, total, n) =~= data.subrange(base, base + this_end));
    }
}

/// The final chunk of a plane is exactly the remainder `total % CHUNK_SIZE`,
/// or a full chunk when that remainder is zero.
pub proof fn lemma_final_chunk_len(total: int)
    requires
        0 < total,
    ensures
        total % CHUNK_SIZE as int != 0 ==> spec_chunk_len(total, spec_chunk_count(total) - 1)
            == total % CHUNK_SIZE as int,
        total % CHUNK_SIZE as int == 0 ==> spec_chunk_len(total, spec_chunk_count(total) - 1)
            == CHUNK_SIZE as int,
{
    let c = CHUNK_SIZE as int;
    let n = spec_chunk_count(total);
    assert((n - 1) * c == n * c - c) by (nonlinear_arith);
    assert(total % c != 0 ==> n * c - c == total - total % c) by (nonlinear_arith)
        requires n == (total + c - 1) / c, total > 0, c == 64;
    assert(total % c == 0 ==> n * c == total) by (nonlinear_arith)
        requires n == (total + c - 1) / c, total > 0, c == 64;
}

// ---------------------------------------------------------------------------
// State machine plumbing shared by the protocol variants
// ---------------------------------------------------------------------------

/// A transport event handed to a protocol state machine by the event loop
/// that owns the ISO-DEP poller: the tag answered and an exchange can be
/// made, a transport-level error, or anything else (not ready yet).
#[derive(Debug, Clone, Copy, PartialEq, Eq, Structural)]
pub enum TransportEvent {
    /// The tag is ready for an exchange
    Ready,
    /// A transport-level error
    Error,
    /// Any other event; not ready yet
    Other,
}

/// What the event loop should do after a transition.
#[derive(Debug, Clone, Copy, PartialEq, Eq, Structural)]
pub enum Directive {
    /// Keep polling for transport events
    Continue,
    /// Stop the poller; the session is over
    Stop,
}

/// The outcome of filtering one transport event: the state to adopt, whether
/// that state's exchange should now be made, and the directive for the loop.
#[derive(Debug, Clone, Copy)]
pub struct EventStep<S> {
    /// The state after the event
    pub next: S,
    /// Whether to build and send this state's command now
    pub process: bool,
    /// What the event loop does next
    pub directive: Directive,
}

/// The outcome of one state transition after an exchange: the next state,
/// the settle delay the protocol prescribes before the next exchange, and
/// the directive for the loop.
#[derive(Debug, Clone, Copy)]
pub struct Step<S> {
    /// The state after the transition
    pub next: S,
    /// Milliseconds to wait before handling the next event
    pub delay_ms: u32,
    /// What the event loop does next
    pub directive: Directive,
}

} // verus!
