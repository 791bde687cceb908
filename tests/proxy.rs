use tmkms_nitro_helper::proxy::{PairAction, PairPhase, Pairing, RelayBuffer};

fn pump(buf: &mut RelayBuffer, out: &mut Vec<u8>, max: usize) {
    let n = buf.pending().len().min(max);
    out.extend_from_slice(&buf.pending()[..n]);
    buf.consume(n);
}

#[test]
fn relay_keeps_bytes_in_order_both_ways() {
    let up: Vec<u8> = (0..3_000_000u32).map(|i| (i % 251) as u8).collect();
    let down: Vec<u8> = (0..2_500_000u32).map(|i| (i % 241) as u8 ^ 0x5A).collect();
    let mut to_enclave = RelayBuffer::new();
    let mut to_validator = RelayBuffer::new();
    let (mut got_up, mut got_down) = (Vec::new(), Vec::new());
    let (mut iu, mut id) = (0usize, 0usize);
    let mut round = 0usize;
    while iu < up.len() || id < down.len() || !to_enclave.pending().is_empty() || !to_validator.pending().is_empty() {
        let cu = (round * 37 % 9000 + 1).min(up.len() - iu);
        to_enclave.receive(&up[iu..iu + cu]);
        iu += cu;
        let cd = (round * 53 % 7000 + 1).min(down.len() - id);
        to_validator.receive(&down[id..id + cd]);
        id += cd;
        pump(&mut to_enclave, &mut got_up, round % 5000 + 1);
        pump(&mut to_validator, &mut got_down, round % 4000 + 1);
        round += 1;
    }
    assert_eq!(got_up, up);
    assert_eq!(got_down, down);
}

#[test]
fn partial_consume_keeps_the_rest() {
    let mut b = RelayBuffer::new();
    b.receive(b"hello ");
    b.receive(b"world");
    b.consume(4);
    assert_eq!(b.pending(), b"o world");
    b.consume(0);
    assert_eq!(b.pending(), b"o world");
    b.consume(7);
    assert!(b.pending().is_empty());
}

#[test]
fn pairing_tears_down_once() {
    let mut p = Pairing::new();
    assert_eq!(p.phase, PairPhase::Connecting);
    assert_eq!(p.on_enclave_connect(true), PairAction::StartRelays);
    assert_eq!(p.on_direction_ended(), PairAction::ShutdownBoth);
    assert_eq!(p.on_direction_ended(), PairAction::Nothing);
    assert_eq!(p.phase, PairPhase::TornDown);
}

#[test]
fn unreachable_enclave_closes_validator_side() {
    let mut p = Pairing::new();
    assert_eq!(p.on_enclave_connect(false), PairAction::CloseValidator);
    assert_eq!(p.phase, PairPhase::TornDown);
}
