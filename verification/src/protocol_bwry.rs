//! Protocol state machine for BWRY (4-color, single-buffer) e-ink displays
//! over ISO-DEP.
//!
//! The write sequence is a strictly ordered series of states, each making
//! exactly one command/response exchange (or a fixed delay) and then
//! advancing; a shared error state absorbs every failure. The machine is
//! written as three pure functions, so an event loop owning the transport
//! drives it one exchange at a time:
//!
//! * [`bwry_on_event`] filters one transport event: only `WaitingForTag`
//!   tolerates repeated not-ready events, every other state treats a
//!   transport error as fatal;
//! * [`bwry_command`] gives the command bytes that the current state's
//!   exchange sends, if it sends one;
//! * [`bwry_advance`] consumes the exchange outcome and yields the next
//!   state, the settle delay the protocol prescribes, and whether the loop
//!   goes on.

use vstd::prelude::*;

use crate::image::Image;
use crate::protocol_common::{
    build_gpio_0, build_gpio_1, build_image_packet, build_init, build_read_status,
    build_select_register, build_write_data, spec_chunk, spec_chunk_count, spec_chunk_len,
    spec_chunks_concat, spec_gpio_0_cmd, spec_gpio_1_cmd, spec_image_packet_cmd, spec_init_cmd,
    spec_read_status_cmd, spec_select_register_cmd, spec_write_data_cmd, spec_write_data_header,
    lemma_chunks_reconstruct, Directive, EventStep, NfcError, Step, TransportEvent, CHUNK_SIZE,
    IMAGE_DATA_SIZE, NUM_PACKETS,
};
use crate::tag_type::Bwry;

verus! {

/// Register configured to 0x02 for 4-color mode.
pub const REG_E0: u8 = 0xE0;

/// Register configured to 0x5D for 4-color mode.
pub const REG_E6: u8 = 0xE6;

/// Register configured to 0x00 for 4-color mode.
pub const REG_A5: u8 = 0xA5;

/// Cleanup register written with 0x00 after refresh.
pub const REG_02: u8 = 0x02;

/// Cleanup register written with 0xA5 after refresh.
pub const REG_07: u8 = 0x07;

/// Display initialization command: 74 00 15 00 00.
pub open spec fn spec_display_init_cmd() -> Seq<u8> {
    seq![0x74u8, 0x00, 0x15, 0x00, 0x00]
}

/// Start-data-transmission command: 74 01 15 01 00.
pub open spec fn spec_start_tx_cmd() -> Seq<u8> {
    seq![0x74u8, 0x01, 0x15, 0x01, 0x00]
}

/// Display refresh trigger command: 74 02 15 02 00.
pub open spec fn spec_refresh_cmd() -> Seq<u8> {
    seq![0x74u8, 0x02, 0x15, 0x02, 0x00]
}

/// Builds the display initialization command.
pub fn build_display_init() -> (v: Vec<u8>)
    ensures
        v@ == spec_display_init_cmd(),
{
    let mut v: Vec<u8> = Vec::new();
    v.push(0x74);
    v.push(0x00);
    v.push(0x15);
    v.push(0x00);
    v.push(0x00);
    proof {
        assert(v@ =~= spec_display_init_cmd());
    }
    v
}

/// Builds the start-data-transmission command.
pub fn build_start_tx() -> (v: Vec<u8>)
    ensures
        v@ == spec_start_tx_cmd(),
{
    let mut v: Vec<u8> = Vec::new();
    v.push(0x74);
    v.push(0x01);
    v.push(0x15);
    v.push(0x01);
    v.push(0x00);
    proof {
        assert(v@ =~= spec_start_tx_cmd());
    }
    v
}

/// Builds the display refresh trigger command.
pub fn build_refresh() -> (v: Vec<u8>)
    ensures
        v@ == spec_refresh_cmd(),
{
    let mut v: Vec<u8> = Vec::new();
    v.push(0x74);
    v.push(0x02);
    v.push(0x15);
    v.push(0x02);
    v.push(0x00);
    proof {
        assert(v@ =~= spec_refresh_cmd());
    }
    v
}

/// One-byte payload as a vector, for register writes.
fn one_byte(b: u8) -> (v: Vec<u8>)
    ensures
        v@ == seq![b],
{
    let mut v: Vec<u8> = Vec::new();
    v.push(b);
    proof {
        assert(v@ =~= seq![b]);
    }
    v
}

/// The states of the BWRY write sequence, in protocol order. `SendData`
/// carries the index of the next 64-byte packet and self-loops until the
/// last (possibly short) chunk is sent; `PollStatus` self-loops while the
/// tag reports busy. `Done` and `Error` are terminal.
#[derive(Debug, Clone, Copy, PartialEq, Eq, Structural)]
pub enum BwryState {
    /// Waiting for a tag to answer; tolerates not-ready events
    WaitingForTag,
    /// Authentication exchange
    Init,
    /// First power step (50 ms settle)
    Gpio0,
    /// Second power step (200 ms settle)
    Gpio1,
    /// Display initialization (100 ms settle)
    DisplayInit,
    /// Select configuration register 0xE0
    RegE0Select,
    /// Write configuration register 0xE0
    RegE0Write,
    /// Select configuration register 0xE6
    RegE6Select,
    /// Write configuration register 0xE6
    RegE6Write,
    /// Select configuration register 0xA5
    RegA5Select,
    /// Write configuration register 0xA5 (100 ms settle)
    RegA5Write,
    /// Start bulk data transmission
    StartTx,
    /// Send data packet with this index (50 ms settle after the last)
    SendData(usize),
    /// Trigger the display refresh
    Refresh,
    /// Fixed 10-second wait after the refresh trigger
    WaitRefresh,
    /// Poll the busy-status register (400 ms between polls)
    PollStatus,
    /// Select cleanup register 0x02
    Cleanup02Select,
    /// Write cleanup register 0x02 (200 ms settle)
    Cleanup02Write,
    /// Select cleanup register 0x07
    Cleanup07Select,
    /// Write cleanup register 0x07
    Cleanup07Write,
    /// The write completed
    Done,
    /// The write failed; terminal
    Error(NfcError),
}

/// The command bytes that a state's exchange sends over the transport, if
/// the state makes an exchange. States that only wait, and the terminal
/// states, send nothing.
pub open spec fn spec_bwry_command(s: BwryState, img: Seq<u8>) -> Option<Seq<u8>> {
    match s {
        BwryState::WaitingForTag => None,
        BwryState::Init => Some(spec_init_cmd()),
        BwryState::Gpio0 => Some(spec_gpio_0_cmd()),
        BwryState::Gpio1 => Some(spec_gpio_1_cmd()),
        BwryState::DisplayInit => Some(spec_display_init_cmd()),
        BwryState::RegE0Select => Some(spec_select_register_cmd(REG_E0)),
        BwryState::RegE0Write => Some(spec_write_data_cmd(seq![0x02u8])),
        BwryState::RegE6Select => Some(spec_select_register_cmd(REG_E6)),
        BwryState::RegE6Write => Some(spec_write_data_cmd(seq![0x5Du8])),
        BwryState::RegA5Select => Some(spec_select_register_cmd(REG_A5)),
        BwryState::RegA5Write => Some(spec_write_data_cmd(seq![0x00u8])),
        BwryState::StartTx => Some(spec_start_tx_cmd()),
        BwryState::SendData(i) => if i < NUM_PACKETS {
            Some(
                spec_image_packet_cmd(
                    img,
                    i * CHUNK_SIZE,
                    spec_chunk_len(IMAGE_DATA_SIZE as int, i as int),
                ),
            )
        } else {
            None
        },
        BwryState::Refresh => Some(spec_refresh_cmd()),
        BwryState::WaitRefresh => None,
        BwryState::PollStatus => Some(spec_read_status_cmd()),
        BwryState::Cleanup02Select => Some(spec_select_register_cmd(REG_02)),
        BwryState::Cleanup02Write => Some(spec_write_data_cmd(seq![0x00u8])),
        BwryState::Cleanup07Select => Some(spec_select_register_cmd(REG_07)),
        BwryState::Cleanup07Write => Some(spec_write_data_cmd(seq![0xA5u8])),
        BwryState::Done => None,
        BwryState::Error(_) => None,
    }
}

/// What one transport event does to the machine before any exchange:
/// `WaitingForTag` keeps waiting through not-ready events and starts the
/// sequence on a ready event; a terminal state ends the session; any other
/// state processes its exchange on a ready event, fails fatally on a
/// transport error, and otherwise waits.
pub open spec fn spec_bwry_on_event(s: BwryState, ev: TransportEvent) -> EventStep<BwryState> {
    if s is WaitingForTag {
        if ev is Ready {
            EventStep { next: BwryState::Init, process: true, directive: Directive::Continue }
        } else {
            EventStep { next: s, process: false, directive: Directive::Continue }
        }
    } else if s is Done || s is Error {
        EventStep { next: s, process: false, directive: Directive::Stop }
    } else if ev is Ready {
        EventStep { next: s, process: true, directive: Directive::Continue }
    } else if ev is Error {
        EventStep {
            next: BwryState::Error(NfcError::DetectFailed),
            process: false,
            directive: Directive::Stop,
        }
    } else {
        EventStep { next: s, process: false, directive: Directive::Continue }
    }
}

/// A failed exchange: the shared error sink, and the session stops.
pub open spec fn spec_bwry_fail() -> Step<BwryState> {
    Step {
        next: BwryState::Error(NfcError::TransmitFailed),
        delay_ms: 0,
        directive: Directive::Stop,
    }
}

/// The transition table: given the state whose exchange was just made (or
/// that only waits), whether the exchange succeeded, and the response bytes,
/// the next state, the settle delay, and the directive for the loop.
///
/// Every state has exactly one successor on success and the shared error
/// sink on failure; only `SendData` and `PollStatus` are ever re-entered.
/// During `PollStatus`, a response shorter than 3 bytes is treated as
/// "assume ready" to tolerate transports that truncate trailing bytes;
/// readiness is a non-zero first response byte.
pub open spec fn spec_bwry_advance(s: BwryState, ok: bool, rx: Seq<u8>) -> Step<BwryState> {
    match s {
        BwryState::WaitingForTag => Step {
            next: s,
            delay_ms: 0,
            directive: Directive::Continue,
        },
        BwryState::Init => if ok {
            Step { next: BwryState::Gpio0, delay_ms: 0, directive: Directive::Continue }
        } else {
            spec_bwry_fail()
        },
        BwryState::Gpio0 => if ok {
            Step { next: BwryState::Gpio1, delay_ms: 50, directive: Directive::Continue }
        } else {
            spec_bwry_fail()
        },
        BwryState::Gpio1 => if ok {
            Step { next: BwryState::DisplayInit, delay_ms: 200, directive: Directive::Continue }
        } else {
            spec_bwry_fail()
        },
        BwryState::DisplayInit => if ok {
            Step { next: BwryState::RegE0Select, delay_ms: 100, directive: Directive::Continue }
        } else {
            spec_bwry_fail()
        },
        BwryState::RegE0Select => if ok {
            Step { next: BwryState::RegE0Write, delay_ms: 0, directive: Directive::Continue }
        } else {
            spec_bwry_fail()
        },
        BwryState::RegE0Write => if ok {
            Step { next: BwryState::RegE6Select, delay_ms: 0, directive: Directive::Continue }
        } else {
            spec_bwry_fail()
        },
        BwryState::RegE6Select => if ok {
            Step { next: BwryState::RegE6Write, delay_ms: 0, directive: Directive::Continue }
        } else {
            spec_bwry_fail()
        },
        BwryState::RegE6Write => if ok {
            Step { next: BwryState::RegA5Select, delay_ms: 0, directive: Directive::Continue }
        } else {
            spec_bwry_fail()
        },
        BwryState::RegA5Select => if ok {
            Step { next: BwryState::RegA5Write, delay_ms: 0, directive: Directive::Continue }
        } else {
            spec_bwry_fail()
        },
        BwryState::RegA5Write => if ok {
            Step { next: BwryState::StartTx, delay_ms: 100, directive: Directive::Continue }
        } else {
            spec_bwry_fail()
        },
        BwryState::StartTx => if ok {
            Step { next: BwryState::SendData(0), delay_ms: 0, directive: Directive::Continue }
        } else {
            spec_bwry_fail()
        },
        BwryState::SendData(i) => if ok {
            if i + 1 >= NUM_PACKETS {
                Step { next: BwryState::Refresh, delay_ms: 50, directive: Directive::Continue }
            } else {
                Step {
                    next: BwryState::SendData((i + 1) as usize),
                    delay_ms: 0,
                    directive: Directive::Continue,
                }
            }
        } else {
            spec_bwry_fail()
        },
        BwryState::Refresh => if ok {
            Step { next: BwryState::WaitRefresh, delay_ms: 0, directive: Directive::Continue }
        } else {
            spec_bwry_fail()
        },
        BwryState::WaitRefresh => Step {
            next: BwryState::PollStatus,
            delay_ms: 10000,
            directive: Directive::Continue,
        },
        BwryState::PollStatus => if ok {
            if rx.len() >= 3 {
                if rx[0] != 0x00 {
                    Step {
                        next: BwryState::Cleanup02Select,
                        delay_ms: 0,
                        directive: Directive::Continue,
                    }
                } else {
                    Step {
                        next: BwryState::PollStatus,
                        delay_ms: 400,
                        directive: Directive::Continue,
                    }
                }
            } else {
                Step {
                    next: BwryState::Cleanup02Select,
                    delay_ms: 0,
                    directive: Directive::Continue,
                }
            }
        } else {
            spec_bwry_fail()
        },
        BwryState::Cleanup02Select => if ok {
            Step { next: BwryState::Cleanup02Write, delay_ms: 0, directive: Directive::Continue }
        } else {
            spec_bwry_fail()
        },
        BwryState::Cleanup02Write => if ok {
            Step { next: BwryState::Cleanup07Select, delay_ms: 200, directive: Directive::Continue }
        } else {
            spec_bwry_fail()
        },
        BwryState::Cleanup07Select => if ok {
            Step { next: BwryState::Cleanup07Write, delay_ms: 0, directive: Directive::Continue }
        } else {
            spec_bwry_fail()
        },
        BwryState::Cleanup07Write => if ok {
            Step { next: BwryState::Done, delay_ms: 0, directive: Directive::Stop }
        } else {
            spec_bwry_fail()
        },
        BwryState::Done => Step { next: s, delay_ms: 0, directive: Directive::Stop },
        BwryState::Error(_) => Step { next: s, delay_ms: 0, directive: Directive::Stop },
    }
}

/// Filters one transport event.
pub fn bwry_on_event(s: &BwryState, ev: TransportEvent) -> (r: EventStep<BwryState>)
    ensures
        r == spec_bwry_on_event(*s, ev),
{
    match *s {
        BwryState::WaitingForTag => {
            if matches!(ev, TransportEvent::Ready) {
                EventStep { next: BwryState::Init, process: true, directive: Directive::Continue }
            } else {
                EventStep { next: *s, process: false, directive: Directive::Continue }
            }
        },
        BwryState::Done | BwryState::Error(_) => {
            EventStep { next: *s, process: false, directive: Directive::Stop }
        },
        _ => {
            match ev {
                TransportEvent::Ready => {
                    EventStep { next: *s, process: true, directive: Directive::Continue }
                },
                TransportEvent::Error => {
                    EventStep {
                        next: BwryState::Error(NfcError::DetectFailed),
                        process: false,
                        directive: Directive::Stop,
                    }
                },
                TransportEvent::Other => {
                    EventStep { next: *s, process: false, directive: Directive::Continue }
                },
            }
        },
    }
}

/// Builds the command that the state's exchange sends, or `None` for a state
/// that only waits or is terminal.
pub fn bwry_command(s: &BwryState, image: &Image<Bwry>) -> (r: Option<Vec<u8>>)
    requires
        image.wf(),
    ensures
        r is Some <==> spec_bwry_command(*s, image@) is Some,
        r matches Some(v) ==> spec_bwry_command(*s, image@) == Some(v@),
{
    match *s {
        BwryState::WaitingForTag => None,
        BwryState::Init => Some(build_init()),
        BwryState::Gpio0 => Some(build_gpio_0()),
        BwryState::Gpio1 => Some(build_gpio_1()),
        BwryState::DisplayInit => Some(build_display_init()),
        BwryState::RegE0Select => Some(build_select_register(REG_E0)),
        BwryState::RegE0Write => Some(build_write_data(&one_byte(0x02))),
        BwryState::RegE6Select => Some(build_select_register(REG_E6)),
        BwryState::RegE6Write => Some(build_write_data(&one_byte(0x5D))),
        BwryState::RegA5Select => Some(build_select_register(REG_A5)),
        BwryState::RegA5Write => Some(build_write_data(&one_byte(0x00))),
        BwryState::StartTx => Some(build_start_tx()),
        BwryState::SendData(i) => {
            if i < NUM_PACKETS {
                let offset = i * CHUNK_SIZE;
                proof {
                    assert(i * CHUNK_SIZE + CHUNK_SIZE <= NUM_PACKETS * CHUNK_SIZE)
                        by (nonlinear_arith)
                        requires
                            i < NUM_PACKETS,
                            CHUNK_SIZE == 64,
                    ;
                }
                let remaining = IMAGE_DATA_SIZE - offset;
                let chunk_len = if CHUNK_SIZE < remaining {
                    CHUNK_SIZE
                } else {
                    remaining
                };
                Some(build_image_packet(image.as_slice(), offset, chunk_len))
            } else {
                None
            }
        },
        BwryState::Refresh => Some(build_refresh()),
        BwryState::WaitRefresh => None,
        BwryState::PollStatus => Some(build_read_status()),
        BwryState::Cleanup02Select => Some(build_select_register(REG_02)),
        BwryState::Cleanup02Write => Some(build_write_data(&one_byte(0x00))),
        BwryState::Cleanup07Select => Some(build_select_register(REG_07)),
        BwryState::Cleanup07Write => Some(build_write_data(&one_byte(0xA5))),
        BwryState::Done => None,
        BwryState::Error(_) => None,
    }
}

/// Makes one state transition from the outcome of the state's exchange.
pub fn bwry_advance(s: &BwryState, ok: bool, rx: &Vec<u8>) -> (r: Step<BwryState>)
    ensures
        r == spec_bwry_advance(*s, ok, rx@),
{
    match *s {
        BwryState::WaitingForTag => Step {
            next: *s,
            delay_ms: 0,
            directive: Directive::Continue,
        },
        BwryState::Init => if ok {
            Step { next: BwryState::Gpio0, delay_ms: 0, directive: Directive::Continue }
        } else {
            bwry_fail()
        },
        BwryState::Gpio0 => if ok {
            Step { next: BwryState::Gpio1, delay_ms: 50, directive: Directive::Continue }
        } else {
            bwry_fail()
        },
        BwryState::Gpio1 => if ok {
            Step { next: BwryState::DisplayInit, delay_ms: 200, directive: Directive::Continue }
        } else {
            bwry_fail()
        },
        BwryState::DisplayInit => if ok {
            Step { next: BwryState::RegE0Select, delay_ms: 100, directive: Directive::Continue }
        } else {
            bwry_fail()
        },
        BwryState::RegE0Select => if ok {
            Step { next: BwryState::RegE0Write, delay_ms: 0, directive: Directive::Continue }
        } else {
            bwry_fail()
        },
        BwryState::RegE0Write => if ok {
            Step { next: BwryState::RegE6Select, delay_ms: 0, directive: Directive::Continue }
        } else {
            bwry_fail()
        },
        BwryState::RegE6Select => if ok {
            Step { next: BwryState::RegE6Write, delay_ms: 0, directive: Directive::Continue }
        } else {
            bwry_fail()
        },
        BwryState::RegE6Write => if ok {
            Step { next: BwryState::RegA5Select, delay_ms: 0, directive: Directive::Continue }
        } else {
            bwry_fail()
        },
        BwryState::RegA5Select => if ok {
            Step { next: BwryState::RegA5Write, delay_ms: 0, directive: Directive::Continue }
        } else {
            bwry_fail()
        },
        BwryState::RegA5Write => if ok {
            Step { next: BwryState::StartTx, delay_ms: 100, directive: Directive::Continue }
        } else {
            bwry_fail()
        },
        BwryState::StartTx => if ok {
            Step { next: BwryState::SendData(0), delay_ms: 0, directive: Directive::Continue }
        } else {
            bwry_fail()
        },
        BwryState::SendData(i) => if ok {
            if i >= NUM_PACKETS - 1 {
                Step { next: BwryState::Refresh, delay_ms: 50, directive: Directive::Continue }
            } else {
                Step {
                    next: BwryState::SendData(i + 1),
                    delay_ms: 0,
                    directive: Directive::Continue,
                }
            }
        } else {
            bwry_fail()
        },
        BwryState::Refresh => if ok {
            Step { next: BwryState::WaitRefresh, delay_ms: 0, directive: Directive::Continue }
        } else {
            bwry_fail()
        },
        BwryState::WaitRefresh => Step {
            next: BwryState::PollStatus,
            delay_ms: 10000,
            directive: Directive::Continue,
        },
        BwryState::PollStatus => if ok {
            if rx.len() >= 3 {
                if rx[0] != 0x00 {
                    Step {
                        next: BwryState::Cleanup02Select,
                        delay_ms: 0,
                        directive: Directive::Continue,
                    }
                } else {
                    Step {
                        next: BwryState::PollStatus,
                        delay_ms: 400,
                        directive: Directive::Continue,
                    }
                }
            } else {
                Step {
                    next: BwryState::Cleanup02Select,
                    delay_ms: 0,
                    directive: Directive::Continue,
                }
            }
        } else {
            bwry_fail()
        },
        BwryState::Cleanup02Select => if ok {
            Step { next: BwryState::Cleanup02Write, delay_ms: 0, directive: Directive::Continue }
        } else {
            bwry_fail()
        },
        BwryState::Cleanup02Write => if ok {
            Step { next: BwryState::Cleanup07Select, delay_ms: 200, directive: Directive::Continue }
        } else {
            bwry_fail()
        },
        BwryState::Cleanup07Select => if ok {
            Step { next: BwryState::Cleanup07Write, delay_ms: 0, directive: Directive::Continue }
        } else {
            bwry_fail()
        },
        BwryState::Cleanup07Write => if ok {
            Step { next: BwryState::Done, delay_ms: 0, directive: Directive::Stop }
        } else {
            bwry_fail()
        },
        BwryState::Done | BwryState::Error(_) => Step {
            next: *s,
            delay_ms: 0,
            directive: Directive::Stop,
        },
    }
}

/// The shared error sink for a failed exchange.
fn bwry_fail() -> (r: Step<BwryState>)
    ensures
        r == spec_bwry_fail(),
{
    Step {
        next: BwryState::Error(NfcError::TransmitFailed),
        delay_ms: 0,
        directive: Directive::Stop,
    }
}

/// The session is single-use: a terminal state absorbs every event and
/// transition, always stopping the loop and never changing state again.
pub proof fn lemma_bwry_terminal_absorbing(
    s: BwryState,
    ok: bool,
    rx: Seq<u8>,
    ev: TransportEvent,
)
    requires
        s is Done || s is Error,
    ensures
        spec_bwry_advance(s, ok, rx).next == s,
        spec_bwry_advance(s, ok, rx).directive is Stop,
        spec_bwry_on_event(s, ev).next == s,
        !spec_bwry_on_event(s, ev).process,
        spec_bwry_on_event(s, ev).directive is Stop,
{
}

/// Every state whose exchange fails transitions to the shared error sink
/// `Error(TransmitFailed)` and stops the session.
pub proof fn lemma_bwry_exchange_failure_fatal(s: BwryState, rx: Seq<u8>, img: Seq<u8>)
    requires
        spec_bwry_command(s, img) is Some,
    ensures
        spec_bwry_advance(s, false, rx) == spec_bwry_fail(),
{
}

/// On success no state is ever re-entered, except the busy-polling state
/// while the tag still reports busy. (The chunked transfer state advances
/// its packet index, so it never recurs identically.)
pub proof fn lemma_bwry_no_reentry(s: BwryState, rx: Seq<u8>)
    ensures
        spec_bwry_advance(s, true, rx).next == s <==> ((s is PollStatus && rx.len() >= 3 && rx[0]
            == 0x00) || s is Done || s is Error || s is WaitingForTag),
{
}

/// Chunking completeness for the single-buffer transfer: the machine sends
/// exactly `NUM_PACKETS` data packets, packet `i` carrying chunk `i` of the
/// image, and concatenating every chunk in emission order reconstructs the
/// image exactly.
pub proof fn lemma_bwry_chunks(img: Seq<u8>)
    requires
        img.len() == IMAGE_DATA_SIZE,
    ensures
        spec_chunk_count(IMAGE_DATA_SIZE as int) == NUM_PACKETS,
        forall|i: usize|
            i < NUM_PACKETS ==> #[trigger] spec_bwry_command(BwryState::SendData(i), img) == Some(
                spec_write_data_header(spec_chunk_len(IMAGE_DATA_SIZE as int, i as int) as u8)
                    + spec_chunk(img, 0, IMAGE_DATA_SIZE as int, i as int),
            ),
        spec_chunks_concat(img, 0, IMAGE_DATA_SIZE as int, NUM_PACKETS as int) == img,
{
    lemma_chunks_reconstruct(img, 0, IMAGE_DATA_SIZE as int);
    assert(img.subrange(0, IMAGE_DATA_SIZE as int) =~= img);
    assert forall|i: usize| i < NUM_PACKETS implies #[trigger] spec_bwry_command(
        BwryState::SendData(i),
        img,
    ) == Some(
        spec_write_data_header(spec_chunk_len(IMAGE_DATA_SIZE as int, i as int) as u8)
            + spec_chunk(img, 0, IMAGE_DATA_SIZE as int, i as int),
    ) by {
        assert(i * CHUNK_SIZE + CHUNK_SIZE <= NUM_PACKETS * CHUNK_SIZE) by (nonlinear_arith)
            requires
                i < NUM_PACKETS,
                CHUNK_SIZE == 64,
        ;
        assert(spec_chunk(img, 0, IMAGE_DATA_SIZE as int, i as int) =~= img.subrange(
            i * CHUNK_SIZE as int,
            i * CHUNK_SIZE + spec_chunk_len(IMAGE_DATA_SIZE as int, i as int),
        ));
    }
}

} // verus!
