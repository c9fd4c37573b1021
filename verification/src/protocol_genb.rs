//! Protocol state machine for GenB (3-color, dual-buffer) e-ink displays
//! over ISO-DEP.
//!
//! The same shape as the 4-color machine — a strictly ordered sequence of
//! states, one exchange per state, a shared error sink — but with a
//! different register map, two independently addressed 5,000-byte planes
//! (monochrome, then red), shorter power-up delays, a refresh triggered by a
//! register write followed by selecting an execute register, and a busy poll
//! whose readiness is the sentinel first byte 0x01 (inverted polarity versus
//! the 4-color machine). There is no trailing cleanup-register phase.

use vstd::prelude::*;

use crate::image::Image;
use crate::protocol_common::{
    build_gpio_0, build_gpio_1, build_image_packet, build_init, build_read_status,
    build_select_register, build_write_data, spec_chunk, spec_chunk_count, spec_chunk_len,
    spec_chunks_concat, spec_gpio_0_cmd, spec_gpio_1_cmd, spec_image_packet_cmd, spec_init_cmd,
    spec_read_status_cmd, spec_select_register_cmd, spec_write_data_cmd, spec_write_data_header,
    lemma_chunks_reconstruct, Directive, EventStep, NfcError, Step, TransportEvent, CHUNK_SIZE,
    IMAGE_DATA_SIZE, NUM_PACKETS_PER_BUFFER, PLANE_SIZE,
};
use crate::tag_type::Bwr;

verus! {

/// Driver output control register, configured to C7 00 01.
pub const REG_01: u8 = 0x01;

/// Data entry mode register, configured to 01.
pub const REG_11: u8 = 0x11;

/// RAM X address range register, configured to 00 18.
pub const REG_44: u8 = 0x44;

/// RAM Y address range register, configured to C7 00 00 00.
pub const REG_45: u8 = 0x45;

/// Border waveform register, configured to 05.
pub const REG_3C: u8 = 0x3C;

/// Temperature sensor register, configured to 80.
pub const REG_18: u8 = 0x18;

/// RAM X address counter register, configured to 00.
pub const REG_4E: u8 = 0x4E;

/// RAM Y address counter register, configured to C7 00.
pub const REG_4F: u8 = 0x4F;

/// Monochrome data buffer register.
pub const REG_BW_DATA: u8 = 0x24;

/// Red data buffer register.
pub const REG_RED_DATA: u8 = 0x26;

/// Display update control register; writing F7 arms the refresh.
pub const REG_REFRESH: u8 = 0x22;

/// Master activation register; selecting it executes the refresh.
pub const REG_ACTIVATE: u8 = 0x20;

/// The busy poll's readiness sentinel: the first response byte equal to this
/// value (not merely non-zero) signals that the refresh finished.
pub const GENB_READY_STATUS: u8 = 0x01;

/// Builds a register-write payload of up to four bytes, taking the first
/// `len` of the given bytes.
fn payload_bytes(b0: u8, b1: u8, b2: u8, b3: u8, len: usize) -> (v: Vec<u8>)
    requires
        1 <= len <= 4,
    ensures
        len == 1 ==> v@ == seq![b0],
        len == 2 ==> v@ == seq![b0, b1],
        len == 3 ==> v@ == seq![b0, b1, b2],
        len == 4 ==> v@ == seq![b0, b1, b2, b3],
{
    let mut v: Vec<u8> = Vec::new();
    v.push(b0);
    if len >= 2 {
        v.push(b1);
    }
    if len >= 3 {
        v.push(b2);
    }
    if len >= 4 {
        v.push(b3);
    }
    proof {
        if len == 1 {
            assert(v@ =~= seq![b0]);
        } else if len == 2 {
            assert(v@ =~= seq![b0, b1]);
        } else if len == 3 {
            assert(v@ =~= seq![b0, b1, b2]);
        } else {
            assert(v@ =~= seq![b0, b1, b2, b3]);
        }
    }
    v
}

/// The states of the GenB write sequence, in protocol order: power-up, eight
/// register configuration pairs, the monochrome plane, the red plane, the
/// two-step refresh trigger, and the busy poll. `Done` and `Error` are
/// terminal.
#[derive(Debug, Clone, Copy, PartialEq, Eq, Structural)]
pub enum GenbState {
    /// Waiting for a tag to answer; tolerates not-ready events
    WaitingForTag,
    /// Authentication exchange
    Init,
    /// First power step (50 ms settle)
    Gpio0,
    /// Second power step (50 ms settle)
    Gpio1,
    /// Select driver output control register
    Reg01Select,
    /// Write driver output control register
    Reg01Write,
    /// Select data entry mode register
    Reg11Select,
    /// Write data entry mode register
    Reg11Write,
    /// Select RAM X address range register
    Reg44Select,
    /// Write RAM X address range register
    Reg44Write,
    /// Select RAM Y address range register
    Reg45Select,
    /// Write RAM Y address range register
    Reg45Write,
    /// Select border waveform register
    Reg3CSelect,
    /// Write border waveform register
    Reg3CWrite,
    /// Select temperature sensor register
    Reg18Select,
    /// Write temperature sensor register
    Reg18Write,
    /// Select RAM X address counter register
    Reg4ESelect,
    /// Write RAM X address counter register
    Reg4EWrite,
    /// Select RAM Y address counter register
    Reg4FSelect,
    /// Write RAM Y address counter register (100 ms settle)
    Reg4FWrite,
    /// Address the monochrome data buffer
    SelectBwBuffer,
    /// Send monochrome-plane packet with this index
    SendBwData(usize),
    /// Address the red data buffer
    SelectRedBuffer,
    /// Send red-plane packet with this index
    SendRedData(usize),
    /// Select the display update control register
    Reg22Select,
    /// Arm the refresh by writing F7
    Reg22Write,
    /// Execute the refresh by selecting the master activation register
    Reg20Select,
    /// Fixed 4-second wait after the refresh trigger
    WaitRefresh,
    /// Poll the busy-status register (200 ms between polls)
    PollStatus,
    /// The write completed
    Done,
    /// The write failed; terminal
    Error(NfcError),
}

/// The command bytes that a state's exchange sends over the transport, if
/// the state makes an exchange. The image layout is the monochrome plane in
/// the first `PLANE_SIZE` bytes and the red plane in the second.
pub open spec fn spec_genb_command(s: GenbState, img: Seq<u8>) -> Option<Seq<u8>> {
    match s {
        GenbState::WaitingForTag => None,
        GenbState::Init => Some(spec_init_cmd()),
        GenbState::Gpio0 => Some(spec_gpio_0_cmd()),
        GenbState::Gpio1 => Some(spec_gpio_1_cmd()),
        GenbState::Reg01Select => Some(spec_select_register_cmd(REG_01)),
        GenbState::Reg01Write => Some(spec_write_data_cmd(seq![0xC7u8, 0x00, 0x01])),
        GenbState::Reg11Select => Some(spec_select_register_cmd(REG_11)),
        GenbState::Reg11Write => Some(spec_write_data_cmd(seq![0x01u8])),
        GenbState::Reg44Select => Some(spec_select_register_cmd(REG_44)),
        GenbState::Reg44Write => Some(spec_write_data_cmd(seq![0x00u8, 0x18])),
        GenbState::Reg45Select => Some(spec_select_register_cmd(REG_45)),
        GenbState::Reg45Write => Some(spec_write_data_cmd(seq![0xC7u8, 0x00, 0x00, 0x00])),
        GenbState::Reg3CSelect => Some(spec_select_register_cmd(REG_3C)),
        GenbState::Reg3CWrite => Some(spec_write_data_cmd(seq![0x05u8])),
        GenbState::Reg18Select => Some(spec_select_register_cmd(REG_18)),
        GenbState::Reg18Write => Some(spec_write_data_cmd(seq![0x80u8])),
        GenbState::Reg4ESelect => Some(spec_select_register_cmd(REG_4E)),
        GenbState::Reg4EWrite => Some(spec_write_data_cmd(seq![0x00u8])),
        GenbState::Reg4FSelect => Some(spec_select_register_cmd(REG_4F)),
        GenbState::Reg4FWrite => Some(spec_write_data_cmd(seq![0xC7u8, 0x00])),
        GenbState::SelectBwBuffer => Some(spec_select_register_cmd(REG_BW_DATA)),
        GenbState::SendBwData(i) => if i < NUM_PACKETS_PER_BUFFER {
            Some(
                spec_image_packet_cmd(
                    img,
                    i * CHUNK_SIZE,
                    spec_chunk_len(PLANE_SIZE as int, i as int),
                ),
            )
        } else {
            None
        },
        GenbState::SelectRedBuffer => Some(spec_select_register_cmd(REG_RED_DATA)),
        GenbState::SendRedData(i) => if i < NUM_PACKETS_PER_BUFFER {
            Some(
                spec_image_packet_cmd(
                    img,
                    PLANE_SIZE + i * CHUNK_SIZE,
                    spec_chunk_len(PLANE_SIZE as int, i as int),
                ),
            )
        } else {
            None
        },
        GenbState::Reg22Select => Some(spec_select_register_cmd(REG_REFRESH)),
        GenbState::Reg22Write => Some(spec_write_data_cmd(seq![0xF7u8])),
        GenbState::Reg20Select => Some(spec_select_register_cmd(REG_ACTIVATE)),
        GenbState::WaitRefresh => None,
        GenbState::PollStatus => Some(spec_read_status_cmd()),
        GenbState::Done => None,
        GenbState::Error(_) => None,
    }
}

/// What one transport event does to the machine before any exchange; same
/// policy as the 4-color machine.
pub open spec fn spec_genb_on_event(s: GenbState, ev: TransportEvent) -> EventStep<GenbState> {
    if s is WaitingForTag {
        if ev is Ready {
            EventStep { next: GenbState::Init, process: true, directive: Directive::Continue }
        } else {
            EventStep { next: s, process: false, directive: Directive::Continue }
        }
    } else if s is Done || s is Error {
        EventStep { next: s, process: false, directive: Directive::Stop }
    } else if ev is Ready {
        EventStep { next: s, process: true, directive: Directive::Continue }
    } else if ev is Error {
        EventStep {
            next: GenbState::Error(NfcError::DetectFailed),
            process: false,
            directive: Directive::Stop,
        }
    } else {
        EventStep { next: s, process: false, directive: Directive::Continue }
    }
}

/// A failed exchange: the shared error sink, and the session stops.
pub open spec fn spec_genb_fail() -> Step<GenbState> {
    Step {
        next: GenbState::Error(NfcError::TransmitFailed),
        delay_ms: 0,
        directive: Directive::Stop,
    }
}

/// The transition table of the GenB sequence. Every state has exactly one
/// successor on success and the shared error sink on failure; only the two
/// chunked-transfer states and the busy poll are ever re-entered. During
/// `PollStatus`, a response shorter than 3 bytes is treated as "assume
/// ready"; readiness is the first response byte equal to the sentinel 0x01.
pub open spec fn spec_genb_advance(s: GenbState, ok: bool, rx: Seq<u8>) -> Step<GenbState> {
    match s {
        GenbState::WaitingForTag => Step {
            next: s,
            delay_ms: 0,
            directive: Directive::Continue,
        },
        GenbState::Init => if ok {
            Step { next: GenbState::Gpio0, delay_ms: 0, directive: Directive::Continue }
        } else {
            spec_genb_fail()
        },
        GenbState::Gpio0 => if ok {
            Step { next: GenbState::Gpio1, delay_ms: 50, directive: Directive::Continue }
        } else {
            spec_genb_fail()
        },
        GenbState::Gpio1 => if ok {
            Step { next: GenbState::Reg01Select, delay_ms: 50, directive: Directive::Continue }
        } else {
            spec_genb_fail()
        },
        GenbState::Reg01Select => if ok {
            Step { next: GenbState::Reg01Write, delay_ms: 0, directive: Directive::Continue }
        } else {
            spec_genb_fail()
        },
        GenbState::Reg01Write => if ok {
            Step { next: GenbState::Reg11Select, delay_ms: 0, directive: Directive::Continue }
        } else {
            spec_genb_fail()
        },
        GenbState::Reg11Select => if ok {
            Step { next: GenbState::Reg11Write, delay_ms: 0, directive: Directive::Continue }
        } else {
            spec_genb_fail()
        },
        GenbState::Reg11Write => if ok {
            Step { next: GenbState::Reg44Select, delay_ms: 0, directive: Directive::Continue }
        } else {
            spec_genb_fail()
        },
        GenbState::Reg44Select => if ok {
            Step { next: GenbState::Reg44Write, delay_ms: 0, directive: Directive::Continue }
        } else {
            spec_genb_fail()
        },
        GenbState::Reg44Write => if ok {
            Step { next: GenbState::Reg45Select, delay_ms: 0, directive: Directive::Continue }
        } else {
            spec_genb_fail()
        },
        GenbState::Reg45Select => if ok {
            Step { next: GenbState::Reg45Write, delay_ms: 0, directive: Directive::Continue }
        } else {
            spec_genb_fail()
        },
        GenbState::Reg45Write => if ok {
            Step { next: GenbState::Reg3CSelect, delay_ms: 0, directive: Directive::Continue }
        } else {
            spec_genb_fail()
        },
        GenbState::Reg3CSelect => if ok {
            Step { next: GenbState::Reg3CWrite, delay_ms: 0, directive: Directive::Continue }
        } else {
            spec_genb_fail()
        },
        GenbState::Reg3CWrite => if ok {
            Step { next: GenbState::Reg18Select, delay_ms: 0, directive: Directive::Continue }
        } else {
            spec_genb_fail()
        },
        GenbState::Reg18Select => if ok {
            Step { next: GenbState::Reg18Write, delay_ms: 0, directive: Directive::Continue }
        } else {
            spec_genb_fail()
        },
        GenbState::Reg18Write => if ok {
            Step { next: GenbState::Reg4ESelect, delay_ms: 0, directive: Directive::Continue }
        } else {
            spec_genb_fail()
        },
        GenbState::Reg4ESelect => if ok {
            Step { next: GenbState::Reg4EWrite, delay_ms: 0, directive: Directive::Continue }
        } else {
            spec_genb_fail()
        },
        GenbState::Reg4EWrite => if ok {
            Step { next: GenbState::Reg4FSelect, delay_ms: 0, directive: Directive::Continue }
        } else {
            spec_genb_fail()
        },
        GenbState::Reg4FSelect => if ok {
            Step { next: GenbState::Reg4FWrite, delay_ms: 0, directive: Directive::Continue }
        } else {
            spec_genb_fail()
        },
        GenbState::Reg4FWrite => if ok {
            Step { next: GenbState::SelectBwBuffer, delay_ms: 100, directive: Directive::Continue }
        } else {
            spec_genb_fail()
        },
        GenbState::SelectBwBuffer => if ok {
            Step { next: GenbState::SendBwData(0), delay_ms: 0, directive: Directive::Continue }
        } else {
            spec_genb_fail()
        },
        GenbState::SendBwData(i) => if ok {
            if i + 1 >= NUM_PACKETS_PER_BUFFER {
                Step {
                    next: GenbState::SelectRedBuffer,
                    delay_ms: 0,
                    directive: Directive::Continue,
                }
            } else {
                Step {
                    next: GenbState::SendBwData((i + 1) as usize),
                    delay_ms: 0,
                    directive: Directive::Continue,
                }
            }
        } else {
            spec_genb_fail()
        },
        GenbState::SelectRedBuffer => if ok {
            Step { next: GenbState::SendRedData(0), delay_ms: 0, directive: Directive::Continue }
        } else {
            spec_genb_fail()
        },
        GenbState::SendRedData(i) => if ok {
            if i + 1 >= NUM_PACKETS_PER_BUFFER {
                Step { next: GenbState::Reg22Select, delay_ms: 0, directive: Directive::Continue }
            } else {
                Step {
                    next: GenbState::SendRedData((i + 1) as usize),
                    delay_ms: 0,
                    directive: Directive::Continue,
                }
            }
        } else {
            spec_genb_fail()
        },
        GenbState::Reg22Select => if ok {
            Step { next: GenbState::Reg22Write, delay_ms: 0, directive: Directive::Continue }
        } else {
            spec_genb_fail()
        },
        GenbState::Reg22Write => if ok {
            Step { next: GenbState::Reg20Select, delay_ms: 0, directive: Directive::Continue }
        } else {
            spec_genb_fail()
        },
        GenbState::Reg20Select => if ok {
            Step { next: GenbState::WaitRefresh, delay_ms: 0, directive: Directive::Continue }
        } else {
            spec_genb_fail()
        },
        GenbState::WaitRefresh => Step {
            next: GenbState::PollStatus,
            delay_ms: 4000,
            directive: Directive::Continue,
        },
        GenbState::PollStatus => if ok {
            if rx.len() >= 3 {
                if rx[0] == GENB_READY_STATUS {
                    Step { next: GenbState::Done, delay_ms: 0, directive: Directive::Stop }
                } else {
                    Step {
                        next: GenbState::PollStatus,
                        delay_ms: 200,
                        directive: Directive::Continue,
                    }
                }
            } else {
                Step { next: GenbState::Done, delay_ms: 0, directive: Directive::Stop }
            }
        } else {
            spec_genb_fail()
        },
        GenbState::Done => Step { next: s, delay_ms: 0, directive: Directive::Stop },
        GenbState::Error(_) => Step { next: s, delay_ms: 0, directive: Directive::Stop },
    }
}

/// Filters one transport event.
pub fn genb_on_event(s: &GenbState, ev: TransportEvent) -> (r: EventStep<GenbState>)
    ensures
        r == spec_genb_on_event(*s, ev),
{
    match *s {
        GenbState::WaitingForTag => {
            if matches!(ev, TransportEvent::Ready) {
                EventStep { next: GenbState::Init, process: true, directive: Directive::Continue }
            } else {
                EventStep { next: *s, process: false, directive: Directive::Continue }
            }
        },
        GenbState::Done | GenbState::Error(_) => {
            EventStep { next: *s, process: false, directive: Directive::Stop }
        },
        _ => {
            match ev {
                TransportEvent::Ready => {
                    EventStep { next: *s, process: true, directive: Directive::Continue }
                },
                TransportEvent::Error => {
                    EventStep {
                        next: GenbState::Error(NfcError::DetectFailed),
                        process: false,
                        directive: Directive::Stop,
                    }
                },
                TransportEvent::Other => {
                    EventStep { next: *s, process: false, directive: Directive::Continue }
                },
            }
        },
    }
}

/// Builds the command that the state's exchange sends, or `None` for a state
/// that only waits or is terminal.
pub fn genb_command(s: &GenbState, image: &Image<Bwr>) -> (r: Option<Vec<u8>>)
    requires
        image.wf(),
    ensures
        r is Some <==> spec_genb_command(*s, image@) is Some,
        r matches Some(v) ==> spec_genb_command(*s, image@) == Some(v@),
{
    match *s {
        GenbState::WaitingForTag => None,
        GenbState::Init => Some(build_init()),
        GenbState::Gpio0 => Some(build_gpio_0()),
        GenbState::Gpio1 => Some(build_gpio_1()),
        GenbState::Reg01Select => Some(build_select_register(REG_01)),
        GenbState::Reg01Write => Some(build_write_data(&payload_bytes(0xC7, 0x00, 0x01, 0x00, 3))),
        GenbState::Reg11Select => Some(build_select_register(REG_11)),
        GenbState::Reg11Write => Some(build_write_data(&payload_bytes(0x01, 0x00, 0x00, 0x00, 1))),
        GenbState::Reg44Select => Some(build_select_register(REG_44)),
        GenbState::Reg44Write => Some(build_write_data(&payload_bytes(0x00, 0x18, 0x00, 0x00, 2))),
        GenbState::Reg45Select => Some(build_select_register(REG_45)),
        GenbState::Reg45Write => Some(build_write_data(&payload_bytes(0xC7, 0x00, 0x00, 0x00, 4))),
        GenbState::Reg3CSelect => Some(build_select_register(REG_3C)),
        GenbState::Reg3CWrite => Some(build_write_data(&payload_bytes(0x05, 0x00, 0x00, 0x00, 1))),
        GenbState::Reg18Select => Some(build_select_register(REG_18)),
        GenbState::Reg18Write => Some(build_write_data(&payload_bytes(0x80, 0x00, 0x00, 0x00, 1))),
        GenbState::Reg4ESelect => Some(build_select_register(REG_4E)),
        GenbState::Reg4EWrite => Some(build_write_data(&payload_bytes(0x00, 0x00, 0x00, 0x00, 1))),
        GenbState::Reg4FSelect => Some(build_select_register(REG_4F)),
        GenbState::Reg4FWrite => Some(build_write_data(&payload_bytes(0xC7, 0x00, 0x00, 0x00, 2))),
        GenbState::SelectBwBuffer => Some(build_select_register(REG_BW_DATA)),
        GenbState::SendBwData(i) => {
            if i < NUM_PACKETS_PER_BUFFER {
                let offset = i * CHUNK_SIZE;
                proof {
                    assert(i * CHUNK_SIZE + CHUNK_SIZE <= NUM_PACKETS_PER_BUFFER * CHUNK_SIZE)
                        by (nonlinear_arith)
                        requires
                            i < NUM_PACKETS_PER_BUFFER,
                            CHUNK_SIZE == 64,
                    ;
                }
                let remaining = PLANE_SIZE - offset;
                let chunk_len = if CHUNK_SIZE < remaining {
                    CHUNK_SIZE
                } else {
                    remaining
                };
                Some(build_image_packet(image.as_slice(), offset, chunk_len))
            } else {
                None
            }
        },
        GenbState::SelectRedBuffer => Some(build_select_register(REG_RED_DATA)),
        GenbState::SendRedData(i) => {
            if i < NUM_PACKETS_PER_BUFFER {
                let offset = i * CHUNK_SIZE;
                proof {
                    assert(i * CHUNK_SIZE + CHUNK_SIZE <= NUM_PACKETS_PER_BUFFER * CHUNK_SIZE)
                        by (nonlinear_arith)
                        requires
                            i < NUM_PACKETS_PER_BUFFER,
                            CHUNK_SIZE == 64,
                    ;
                }
                let remaining = PLANE_SIZE - offset;
                let chunk_len = if CHUNK_SIZE < remaining {
                    CHUNK_SIZE
                } else {
                    remaining
                };
                Some(build_image_packet(image.as_slice(), PLANE_SIZE + offset, chunk_len))
            } else {
                None
            }
        },
        GenbState::Reg22Select => Some(build_select_register(REG_REFRESH)),
        GenbState::Reg22Write => Some(build_write_data(&payload_bytes(0xF7, 0x00, 0x00, 0x00, 1))),
        GenbState::Reg20Select => Some(build_select_register(REG_ACTIVATE)),
        GenbState::WaitRefresh => None,
        GenbState::PollStatus => Some(build_read_status()),
        GenbState::Done => None,
        GenbState::Error(_) => None,
    }
}

/// Makes one state transition from the outcome of the state's exchange.
pub fn genb_advance(s: &GenbState, ok: bool, rx: &Vec<u8>) -> (r: Step<GenbState>)
    ensures
        r == spec_genb_advance(*s, ok, rx@),
{
    match *s {
        GenbState::WaitingForTag => Step {
            next: *s,
            delay_ms: 0,
            directive: Directive::Continue,
        },
        GenbState::Init => if ok {
            Step { next: GenbState::Gpio0, delay_ms: 0, directive: Directive::Continue }
        } else {
            genb_fail()
        },
        GenbState::Gpio0 => if ok {
            Step { next: GenbState::Gpio1, delay_ms: 50, directive: Directive::Continue }
        } else {
            genb_fail()
        },
        GenbState::Gpio1 => if ok {
            Step { next: GenbState::Reg01Select, delay_ms: 50, directive: Directive::Continue }
        } else {
            genb_fail()
        },
        GenbState::Reg01Select => if ok {
            Step { next: GenbState::Reg01Write, delay_ms: 0, directive: Directive::Continue }
        } else {
            genb_fail()
        },
        GenbState::Reg01Write => if ok {
            Step { next: GenbState::Reg11Select, delay_ms: 0, directive: Directive::Continue }
        } else {
            genb_fail()
        },
        GenbState::Reg11Select => if ok {
            Step { next: GenbState::Reg11Write, delay_ms: 0, directive: Directive::Continue }
        } else {
            genb_fail()
        },
        GenbState::Reg11Write => if ok {
            Step { next: GenbState::Reg44Select, delay_ms: 0, directive: Directive::Continue }
        } else {
            genb_fail()
        },
        GenbState::Reg44Select => if ok {
            Step { next: GenbState::Reg44Write, delay_ms: 0, directive: Directive::Continue }
        } else {
            genb_fail()
        },
        GenbState::Reg44Write => if ok {
            Step { next: GenbState::Reg45Select, delay_ms: 0, directive: Directive::Continue }
        } else {
            genb_fail()
        },
        GenbState::Reg45Select => if ok {
            Step { next: GenbState::Reg45Write, delay_ms: 0, directive: Directive::Continue }
        } else {
            genb_fail()
        },
        GenbState::Reg45Write => if ok {
            Step { next: GenbState::Reg3CSelect, delay_ms: 0, directive: Directive::Continue }
        } else {
            genb_fail()
        },
        GenbState::Reg3CSelect => if ok {
            Step { next: GenbState::Reg3CWrite, delay_ms: 0, directive: Directive::Continue }
        } else {
            genb_fail()
        },
        GenbState::Reg3CWrite => if ok {
            Step { next: GenbState::Reg18Select, delay_ms: 0, directive: Directive::Continue }
        } else {
            genb_fail()
        },
        GenbState::Reg18Select => if ok {
            Step { next: GenbState::Reg18Write, delay_ms: 0, directive: Directive::Continue }
        } else {
            genb_fail()
        },
        GenbState::Reg18Write => if ok {
            Step { next: GenbState::Reg4ESelect, delay_ms: 0, directive: Directive::Continue }
        } else {
            genb_fail()
        },
        GenbState::Reg4ESelect => if ok {
            Step { next: GenbState::Reg4EWrite, delay_ms: 0, directive: Directive::Continue }
        } else {
            genb_fail()
        },
        GenbState::Reg4EWrite => if ok {
            Step { next: GenbState::Reg4FSelect, delay_ms: 0, directive: Directive::Continue }
        } else {
            genb_fail()
        },
        GenbState::Reg4FSelect => if ok {
            Step { next: GenbState::Reg4FWrite, delay_ms: 0, directive: Directive::Continue }
        } else {
            genb_fail()
        },
        GenbState::Reg4FWrite => if ok {
            Step { next: GenbState::SelectBwBuffer, delay_ms: 100, directive: Directive::Continue }
        } else {
            genb_fail()
        },
        GenbState::SelectBwBuffer => if ok {
            Step { next: GenbState::SendBwData(0), delay_ms: 0, directive: Directive::Continue }
        } else {
            genb_fail()
        },
        GenbState::SendBwData(i) => if ok {
            if i >= NUM_PACKETS_PER_BUFFER - 1 {
                Step {
                    next: GenbState::SelectRedBuffer,
                    delay_ms: 0,
                    directive: Directive::Continue,
                }
            } else {
                Step {
                    next: GenbState::SendBwData(i + 1),
                    delay_ms: 0,
                    directive: Directive::Continue,
                }
            }
        } else {
            genb_fail()
        },
        GenbState::SelectRedBuffer => if ok {
            Step { next: GenbState::SendRedData(0), delay_ms: 0, directive: Directive::Continue }
        } else {
            genb_fail()
        },
        GenbState::SendRedData(i) => if ok {
            if i >= NUM_PACKETS_PER_BUFFER - 1 {
                Step { next: GenbState::Reg22Select, delay_ms: 0, directive: Directive::Continue }
            } else {
                Step {
                    next: GenbState::SendRedData(i + 1),
                    delay_ms: 0,
                    directive: Directive::Continue,
                }
            }
        } else {
            genb_fail()
        },
        GenbState::Reg22Select => if ok {
            Step { next: GenbState::Reg22Write, delay_ms: 0, directive: Directive::Continue }
        } else {
            genb_fail()
        },
        GenbState::Reg22Write => if ok {
            Step { next: GenbState::Reg20Select, delay_ms: 0, directive: Directive::Continue }
        } else {
            genb_fail()
        },
        GenbState::Reg20Select => if ok {
            Step { next: GenbState::WaitRefresh, delay_ms: 0, directive: Directive::Continue }
        } else {
            genb_fail()
        },
        GenbState::WaitRefresh => Step {
            next: GenbState::PollStatus,
            delay_ms: 4000,
            directive: Directive::Continue,
        },
        GenbState::PollStatus => if ok {
            if rx.len() >= 3 {
                if rx[0] == GENB_READY_STATUS {
                    Step { next: GenbState::Done, delay_ms: 0, directive: Directive::Stop }
                } else {
                    Step {
                        next: GenbState::PollStatus,
                        delay_ms: 200,
                        directive: Directive::Continue,
                    }
                }
            } else {
                Step { next: GenbState::Done, delay_ms: 0, directive: Directive::Stop }
            }
        } else {
            genb_fail()
        },
        GenbState::Done | GenbState::Error(_) => Step {
            next: *s,
            delay_ms: 0,
            directive: Directive::Stop,
        },
    }
}

/// The shared error sink for a failed exchange.
fn genb_fail() -> (r: Step<GenbState>)
    ensures
        r == spec_genb_fail(),
{
    Step {
        next: GenbState::Error(NfcError::TransmitFailed),
        delay_ms: 0,
        directive: Directive::Stop,
    }
}

/// The session is single-use: a terminal state absorbs every event and
/// transition, always stopping the loop and never changing state again.
pub proof fn lemma_genb_terminal_absorbing(
    s: GenbState,
    ok: bool,
    rx: Seq<u8>,
    ev: TransportEvent,
)
    requires
        s is Done || s is Error,
    ensures
        spec_genb_advance(s, ok, rx).next == s,
        spec_genb_advance(s, ok, rx).directive is Stop,
        spec_genb_on_event(s, ev).next == s,
        !spec_genb_on_event(s, ev).process,
        spec_genb_on_event(s, ev).directive is Stop,
{
}

/// Every state whose exchange fails transitions to the shared error sink
/// `Error(TransmitFailed)` and stops the session.
pub proof fn lemma_genb_exchange_failure_fatal(s: GenbState, rx: Seq<u8>, img: Seq<u8>)
    requires
        spec_genb_command(s, img) is Some,
    ensures
        spec_genb_advance(s, false, rx) == spec_genb_fail(),
{
}

/// On success no state is ever re-entered, except the busy-polling state
/// while the tag still reports busy (first response byte not the readiness
/// sentinel).
pub proof fn lemma_genb_no_reentry(s: GenbState, rx: Seq<u8>)
    ensures
        spec_genb_advance(s, true, rx).next == s <==> ((s is PollStatus && rx.len() >= 3 && rx[0]
            != GENB_READY_STATUS) || s is Done || s is Error || s is WaitingForTag),
{
}

/// Chunking completeness for the dual-buffer transfer: each plane is sent in
/// exactly `NUM_PACKETS_PER_BUFFER` packets, the monochrome packets carrying
/// the chunks of the first plane and the red packets those of the second,
/// and concatenating either plane's chunks in emission order reconstructs
/// that plane exactly.
pub proof fn lemma_genb_chunks(img: Seq<u8>)
    requires
        img.len() == IMAGE_DATA_SIZE,
    ensures
        spec_chunk_count(PLANE_SIZE as int) == NUM_PACKETS_PER_BUFFER,
        forall|i: usize|
            i < NUM_PACKETS_PER_BUFFER ==> #[trigger] spec_genb_command(
                GenbState::SendBwData(i),
                img,
            ) == Some(
                spec_write_data_header(spec_chunk_len(PLANE_SIZE as int, i as int) as u8)
                    + spec_chunk(img, 0, PLANE_SIZE as int, i as int),
            ),
        forall|i: usize|
            i < NUM_PACKETS_PER_BUFFER ==> #[trigger] spec_genb_command(
                GenbState::SendRedData(i),
                img,
            ) == Some(
                spec_write_data_header(spec_chunk_len(PLANE_SIZE as int, i as int) as u8)
                    + spec_chunk(img, PLANE_SIZE as int, PLANE_SIZE as int, i as int),
            ),
        spec_chunks_concat(img, 0, PLANE_SIZE as int, NUM_PACKETS_PER_BUFFER as int)
            == img.subrange(0, PLANE_SIZE as int),
        spec_chunks_concat(img, PLANE_SIZE as int, PLANE_SIZE as int, NUM_PACKETS_PER_BUFFER as int)
            == img.subrange(PLANE_SIZE as int, IMAGE_DATA_SIZE as int),
{
    lemma_chunks_reconstruct(img, 0, PLANE_SIZE as int);
    lemma_chunks_reconstruct(img, PLANE_SIZE as int, PLANE_SIZE as int);
    assert forall|i: usize| i < NUM_PACKETS_PER_BUFFER implies #[trigger] spec_genb_command(
        GenbState::SendBwData(i),
        img,
    ) == Some(
        spec_write_data_header(spec_chunk_len(PLANE_SIZE as int, i as int) as u8)
            + spec_chunk(img, 0, PLANE_SIZE as int, i as int),
    ) by {
        assert(i * CHUNK_SIZE + CHUNK_SIZE <= NUM_PACKETS_PER_BUFFER * CHUNK_SIZE)
            by (nonlinear_arith)
            requires
                i < NUM_PACKETS_PER_BUFFER,
                CHUNK_SIZE == 64,
        ;
        assert(spec_chunk(img, 0, PLANE_SIZE as int, i as int) =~= img.subrange(
            i * CHUNK_SIZE as int,
            i * CHUNK_SIZE + spec_chunk_len(PLANE_SIZE as int, i as int),
        ));
    }
    assert forall|i: usize| i < NUM_PACKETS_PER_BUFFER implies #[trigger] spec_genb_command(
        GenbState::SendRedData(i),
        img,
    ) == Some(
        spec_write_data_header(spec_chunk_len(PLANE_SIZE as int, i as int) as u8)
            + spec_chunk(img, PLANE_SIZE as int, PLANE_SIZE as int, i as int),
    ) by {
        assert(i * CHUNK_SIZE + CHUNK_SIZE <= NUM_PACKETS_PER_BUFFER * CHUNK_SIZE)
            by (nonlinear_arith)
            requires
                i < NUM_PACKETS_PER_BUFFER,
                CHUNK_SIZE == 64,
        ;
        assert(spec_chunk(img, PLANE_SIZE as int, PLANE_SIZE as int, i as int) =~= img.subrange(
            PLANE_SIZE + i * CHUNK_SIZE as int,
            PLANE_SIZE + i * CHUNK_SIZE + spec_chunk_len(PLANE_SIZE as int, i as int),
        ));
    }
}

} // verus!
