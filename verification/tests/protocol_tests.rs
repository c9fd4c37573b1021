//! Tests driving the two protocol state machines against a simulated
//! transport: full happy-path runs with chunk reconstruction, failure
//! injection, busy polling of both polarities, and terminal-state behavior.

use eink_nfc::image::Image;
use eink_nfc::protocol_bwry::{bwry_advance, bwry_command, bwry_on_event, BwryState};
use eink_nfc::protocol_common::{response_status_ok, Directive, NfcError, TransportEvent};
use eink_nfc::protocol_genb::{genb_advance, genb_command, genb_on_event, GenbState};
use eink_nfc::tag_type::{Bwr, Bwry};

/// A simulated transport: answers every exchange with 90 00, except that the
/// `fail_nth_write`-th write-data command (instruction byte 0x9A) fails at
/// the transport level, and the first `busy_polls` status reads report busy.
struct SimTransport {
    fail_nth_write: Option<usize>,
    busy_polls: usize,
    ready_status: u8,
    writes_seen: usize,
    polls_seen: usize,
}

impl SimTransport {
    fn new(fail_nth_write: Option<usize>, busy_polls: usize, ready_status: u8) -> Self {
        SimTransport { fail_nth_write, busy_polls, ready_status, writes_seen: 0, polls_seen: 0 }
    }

    /// Performs one exchange; returns (success, response bytes).
    fn exchange(&mut self, cmd: &[u8]) -> (bool, Vec<u8>) {
        assert_eq!(cmd[0], 0x74, "every command starts with the class byte");
        if cmd[1] == 0x9A {
            self.writes_seen += 1;
            if self.fail_nth_write == Some(self.writes_seen) {
                return (false, Vec::new());
            }
        }
        if cmd[1] == 0x9B {
            self.polls_seen += 1;
            let status = if self.polls_seen <= self.busy_polls {
                // busy: anything that is not the machine's ready condition
                if self.ready_status == 0x01 { 0xFF } else { 0x00 }
            } else {
                self.ready_status
            };
            return (true, vec![status, 0x90, 0x00]);
        }
        (true, vec![0x90, 0x00])
    }
}

struct BwryRun {
    final_state: BwryState,
    chunks: Vec<Vec<u8>>,
    reached_refresh: bool,
    transitions: usize,
}

/// Drives the BWRY machine to a terminal state, one transport event per
/// iteration, collecting the payload of every data packet sent.
fn run_bwry(image: &Image<Bwry>, sim: &mut SimTransport) -> BwryRun {
    let mut state = BwryState::WaitingForTag;
    let mut chunks = Vec::new();
    let mut reached_refresh = false;
    let mut transitions = 0usize;
    for _ in 0..100_000 {
        let es = bwry_on_event(&state, TransportEvent::Ready);
        state = es.next;
        if matches!(es.directive, Directive::Stop) {
            break;
        }
        if !es.process {
            continue;
        }
        let sending_data = matches!(state, BwryState::SendData(_));
        let (ok, rx) = match bwry_command(&state, image) {
            Some(cmd) => {
                let (delivered, rx) = sim.exchange(&cmd);
                let ok = delivered && response_status_ok(&rx);
                if ok && sending_data {
                    chunks.push(cmd[5..].to_vec());
                }
                (ok, rx)
            }
            None => (true, Vec::new()),
        };
        let step = bwry_advance(&state, ok, &rx);
        state = step.next;
        transitions += 1;
        if matches!(state, BwryState::Refresh) {
            reached_refresh = true;
        }
        if matches!(step.directive, Directive::Stop) {
            break;
        }
    }
    BwryRun { final_state: state, chunks, reached_refresh, transitions }
}

#[test]
fn bwry_happy_path_reaches_done_and_sends_the_whole_image() {
    let payload: Vec<u8> = (0..10_000u32).map(|i| (i % 241) as u8).collect();
    let image = Image::<Bwry>::from_vec(payload.clone()).unwrap();
    let mut sim = SimTransport::new(None, 2, 0x05);
    let run = run_bwry(&image, &mut sim);
    assert_eq!(run.final_state, BwryState::Done);
    assert!(run.reached_refresh);
    // 10,000 bytes in 64-byte chunks: 157 packets, the last 16 bytes long.
    assert_eq!(run.chunks.len(), 157);
    assert_eq!(run.chunks.last().unwrap().len(), 16);
    assert!(run.chunks[..156].iter().all(|c| c.len() == 64));
    let concat: Vec<u8> = run.chunks.concat();
    assert_eq!(concat, payload);
    // two busy polls, then the ready poll
    assert_eq!(sim.polls_seen, 3);
}

#[test]
fn bwry_third_register_write_failure_is_fatal_before_refresh() {
    // The third write-data exchange of the sequence is the write of the
    // third configuration register; failing it must end the session in
    // Error(TransmitFailed) without ever reaching the refresh state and
    // without sending any data packet.
    let image = Image::<Bwry>::new_filled(0);
    let mut sim = SimTransport::new(Some(3), 0, 0x05);
    let run = run_bwry(&image, &mut sim);
    assert_eq!(run.final_state, BwryState::Error(NfcError::TransmitFailed));
    assert!(!run.reached_refresh);
    assert!(run.chunks.is_empty());
}

#[test]
fn bwry_short_status_response_assumes_ready() {
    // A status response shorter than 3 bytes is tolerated as "assume ready".
    let state = BwryState::PollStatus;
    let step = bwry_advance(&state, true, &vec![0x90, 0x00]);
    assert_eq!(step.next, BwryState::Cleanup02Select);
    // A full busy response keeps polling with the 400 ms interval.
    let step = bwry_advance(&state, true, &vec![0x00, 0x90, 0x00]);
    assert_eq!(step.next, BwryState::PollStatus);
    assert_eq!(step.delay_ms, 400);
    // Any non-zero first byte is ready.
    let step = bwry_advance(&state, true, &vec![0x42, 0x90, 0x00]);
    assert_eq!(step.next, BwryState::Cleanup02Select);
}

#[test]
fn bwry_transport_error_mid_sequence_is_detect_failed() {
    let es = bwry_on_event(&BwryState::Gpio1, TransportEvent::Error);
    assert_eq!(es.next, BwryState::Error(NfcError::DetectFailed));
    assert_eq!(es.directive, Directive::Stop);
    assert!(!es.process);
}

#[test]
fn bwry_waiting_tolerates_not_ready_events() {
    let es = bwry_on_event(&BwryState::WaitingForTag, TransportEvent::Other);
    assert_eq!(es.next, BwryState::WaitingForTag);
    assert_eq!(es.directive, Directive::Continue);
    let es = bwry_on_event(&BwryState::WaitingForTag, TransportEvent::Error);
    assert_eq!(es.next, BwryState::WaitingForTag);
    assert_eq!(es.directive, Directive::Continue);
    let es = bwry_on_event(&BwryState::WaitingForTag, TransportEvent::Ready);
    assert_eq!(es.next, BwryState::Init);
    assert!(es.process);
}

#[test]
fn bwry_terminal_states_absorb() {
    let step = bwry_advance(&BwryState::Done, true, &Vec::new());
    assert_eq!(step.next, BwryState::Done);
    assert_eq!(step.directive, Directive::Stop);
    let err = BwryState::Error(NfcError::TransmitFailed);
    let step = bwry_advance(&err, true, &vec![0x90, 0x00]);
    assert_eq!(step.next, err);
    assert_eq!(step.directive, Directive::Stop);
    let es = bwry_on_event(&BwryState::Done, TransportEvent::Error);
    assert_eq!(es.next, BwryState::Done);
    assert_eq!(es.directive, Directive::Stop);
}

#[test]
fn bwry_delays_follow_the_protocol() {
    let rx = vec![0x90, 0x00];
    assert_eq!(bwry_advance(&BwryState::Gpio0, true, &rx).delay_ms, 50);
    assert_eq!(bwry_advance(&BwryState::Gpio1, true, &rx).delay_ms, 200);
    assert_eq!(bwry_advance(&BwryState::DisplayInit, true, &rx).delay_ms, 100);
    assert_eq!(bwry_advance(&BwryState::RegA5Write, true, &rx).delay_ms, 100);
    assert_eq!(bwry_advance(&BwryState::SendData(156), true, &rx).delay_ms, 50);
    assert_eq!(bwry_advance(&BwryState::SendData(5), true, &rx).delay_ms, 0);
    assert_eq!(bwry_advance(&BwryState::WaitRefresh, true, &rx).delay_ms, 10_000);
    assert_eq!(bwry_advance(&BwryState::Cleanup02Write, true, &rx).delay_ms, 200);
}

struct GenbRun {
    final_state: GenbState,
    bw_chunks: Vec<Vec<u8>>,
    red_chunks: Vec<Vec<u8>>,
    transitions: usize,
}

/// Drives the GenB machine to a terminal state, collecting the payloads sent
/// to each plane separately.
fn run_genb(image: &Image<Bwr>, sim: &mut SimTransport) -> GenbRun {
    let mut state = GenbState::WaitingForTag;
    let mut bw_chunks = Vec::new();
    let mut red_chunks = Vec::new();
    let mut transitions = 0usize;
    for _ in 0..100_000 {
        let es = genb_on_event(&state, TransportEvent::Ready);
        state = es.next;
        if matches!(es.directive, Directive::Stop) {
            break;
        }
        if !es.process {
            continue;
        }
        let bw = matches!(state, GenbState::SendBwData(_));
        let red = matches!(state, GenbState::SendRedData(_));
        let (ok, rx) = match genb_command(&state, image) {
            Some(cmd) => {
                let (delivered, rx) = sim.exchange(&cmd);
                let ok = delivered && response_status_ok(&rx);
                if ok && bw {
                    bw_chunks.push(cmd[5..].to_vec());
                }
                if ok && red {
                    red_chunks.push(cmd[5..].to_vec());
                }
                (ok, rx)
            }
            None => (true, Vec::new()),
        };
        let step = genb_advance(&state, ok, &rx);
        state = step.next;
        transitions += 1;
        if matches!(step.directive, Directive::Stop) {
            break;
        }
    }
    GenbRun { final_state: state, bw_chunks, red_chunks, transitions }
}

#[test]
fn genb_happy_path_sends_both_planes() {
    let payload: Vec<u8> = (0..10_000u32).map(|i| (i % 239) as u8).collect();
    let image = Image::<Bwr>::from_vec(payload.clone()).unwrap();
    let mut sim = SimTransport::new(None, 1, 0x01);
    let run = run_genb(&image, &mut sim);
    assert_eq!(run.final_state, GenbState::Done);
    // 5,000 bytes per plane in 64-byte chunks: 79 packets, the last 8 bytes.
    assert_eq!(run.bw_chunks.len(), 79);
    assert_eq!(run.red_chunks.len(), 79);
    assert_eq!(run.bw_chunks.last().unwrap().len(), 8);
    assert_eq!(run.red_chunks.last().unwrap().len(), 8);
    assert_eq!(run.bw_chunks.concat(), payload[..5000]);
    assert_eq!(run.red_chunks.concat(), payload[5000..]);
    assert_eq!(sim.polls_seen, 2);
    // 3 power-up exchanges, 8 register pairs, 2 plane selects, 158 packets,
    // 3 refresh-trigger exchanges, the refresh wait, and 2 status polls.
    assert_eq!(run.transitions, 3 + 16 + 1 + 79 + 1 + 79 + 3 + 1 + 2);
}

#[test]
fn bad_status_word_fails_the_exchange() {
    // A delivered response whose trailer is not 90 00 is a failed exchange,
    // and any failed exchange is fatal.
    let rx = vec![0x6A, 0x82];
    assert!(!response_status_ok(&rx));
    let step = bwry_advance(&BwryState::Init, false, &rx);
    assert_eq!(step.next, BwryState::Error(NfcError::TransmitFailed));
    assert_eq!(step.directive, Directive::Stop);
    let step = genb_advance(&GenbState::Reg44Write, false, &rx);
    assert_eq!(step.next, GenbState::Error(NfcError::TransmitFailed));
    assert_eq!(step.directive, Directive::Stop);
}

#[test]
fn genb_readiness_is_the_exact_sentinel() {
    // Inverted polarity versus the 4-color machine: only a first byte equal
    // to 0x01 is ready; any other value, even non-zero, keeps polling.
    let state = GenbState::PollStatus;
    let step = genb_advance(&state, true, &vec![0xFF, 0x90, 0x00]);
    assert_eq!(step.next, GenbState::PollStatus);
    assert_eq!(step.delay_ms, 200);
    let step = genb_advance(&state, true, &vec![0x00, 0x90, 0x00]);
    assert_eq!(step.next, GenbState::PollStatus);
    let step = genb_advance(&state, true, &vec![0x01, 0x90, 0x00]);
    assert_eq!(step.next, GenbState::Done);
    assert_eq!(step.directive, Directive::Stop);
    // Short response: assume ready.
    let step = genb_advance(&state, true, &vec![0x90, 0x00]);
    assert_eq!(step.next, GenbState::Done);
}

#[test]
fn genb_register_write_failure_is_fatal() {
    let image = Image::<Bwr>::new_filled(0);
    let mut sim = SimTransport::new(Some(3), 0, 0x01);
    let run = run_genb(&image, &mut sim);
    assert_eq!(run.final_state, GenbState::Error(NfcError::TransmitFailed));
    assert!(run.bw_chunks.is_empty());
    assert!(run.red_chunks.is_empty());
}

#[test]
fn genb_delays_follow_the_protocol() {
    let rx = vec![0x90, 0x00];
    assert_eq!(genb_advance(&GenbState::Gpio0, true, &rx).delay_ms, 50);
    assert_eq!(genb_advance(&GenbState::Gpio1, true, &rx).delay_ms, 50);
    assert_eq!(genb_advance(&GenbState::Reg4FWrite, true, &rx).delay_ms, 100);
    assert_eq!(genb_advance(&GenbState::Reg44Write, true, &rx).delay_ms, 0);
    assert_eq!(genb_advance(&GenbState::WaitRefresh, true, &rx).delay_ms, 4_000);
}

#[test]
fn genb_refresh_is_armed_then_executed() {
    let image = Image::<Bwr>::new_filled(0);
    // Arming writes F7 to the update control register...
    let cmd = genb_command(&GenbState::Reg22Write, &image).unwrap();
    assert_eq!(cmd, vec![0x74, 0x9A, 0x00, 0x0E, 0x01, 0xF7]);
    // ...and executing selects the master activation register, no payload.
    let cmd = genb_command(&GenbState::Reg20Select, &image).unwrap();
    assert_eq!(cmd, vec![0x74, 0x99, 0x00, 0x0D, 0x01, 0x20]);
    let step = genb_advance(&GenbState::Reg20Select, true, &vec![0x90, 0x00]);
    assert_eq!(step.next, GenbState::WaitRefresh);
}

#[test]
fn machines_make_one_transition_per_event() {
    // Each driver iteration performs at most one state transition; a full
    // run therefore takes as many exchanges as states passed through.
    let image = Image::<Bwry>::new_filled(0);
    let mut sim = SimTransport::new(None, 0, 0x05);
    let run = run_bwry(&image, &mut sim);
    // 11 setup exchanges + 157 packets + refresh + wait + 1 poll + 4 cleanup
    // + the WaitingForTag detection transition is not counted (no exchange).
    assert_eq!(run.final_state, BwryState::Done);
    assert_eq!(run.transitions, 11 + 157 + 1 + 1 + 1 + 4);
}
