use vstd::prelude::*;

use crate::parsers::v1;
use crate::parsers::v2;
use crate::parsers::{
    envelope_tail_rules, frame_outcome, header_rules, prefix_rules, scan_body, scan_boot,
    scan_control_ack, scan_envelope, scan_simple, trailer_rules, FrameOutcome,
};
use crate::round_trip::{
    lemma_body_reads_back_v1, lemma_body_reads_back_v2, lemma_other_version, reads_back_v1,
    reads_back_v2, trailer_of, written_frame,
};
use crate::serializers::{frame_bytes, payload_v1, payload_v2, ToBytes};
use crate::structures::TelemetryMessage;
use crate::wire::{scan_bytes, scan_fixed, scan_text, ByteRule, Scan};

verus! {

/// What a scan that went through on `b` gives on a prefix of `b` of length `n`: incomplete when the
/// prefix ends before the scanned part does, the same outcome otherwise
pub open spec fn on_prefix(full: Scan, part: Scan, n: int) -> bool {
    match full {
        Scan::Next(q) => part == if n < q {
            Scan::More
        } else {
            Scan::Next(q)
        },
        _ => true,
    }
}

/// Whether `c` is a prefix of `b`
pub open spec fn is_prefix(c: Seq<u8>, b: Seq<u8>) -> bool {
    c.len() <= b.len() <= usize::MAX && c == b.subrange(0, c.len() as int)
}

proof fn lemma_fixed_prefix(b: Seq<u8>, c: Seq<u8>, p: int, pat: Seq<ByteRule>)
    requires
        is_prefix(c, b),
        0 <= p,
    ensures
        on_prefix(scan_fixed(b, p, pat), scan_fixed(c, p, pat), c.len() as int),
{
    if scan_fixed(b, p, pat) is Next {
        assert forall|i: int| 0 <= i < pat.len() && p + i < c.len() implies crate::wire::rule_ok(
            pat[i],
            #[trigger] c[p + i],
        ) by {
            assert(c[p + i] == b[p + i]);
        }
        assert(!exists|i: int|
            0 <= i < pat.len() && p + i < c.len() && !crate::wire::rule_ok(
                pat[i],
                #[trigger] c[p + i],
            ));
    }
}

proof fn lemma_bytes_prefix(b: Seq<u8>, c: Seq<u8>, p: int)
    requires
        is_prefix(c, b),
        0 <= p,
    ensures
        on_prefix(scan_bytes(b, p), scan_bytes(c, p), c.len() as int),
        on_prefix(scan_text(b, p), scan_text(c, p), c.len() as int),
{
    if scan_bytes(b, p) is Next {
        if p < c.len() {
            assert(c[p] == b[p]);
            if p + 1 + b[p] <= c.len() {
                assert(crate::wire::bytes_at(c, p) =~= crate::wire::bytes_at(b, p));
                assert(scan_bytes(c, p) == scan_bytes(b, p));
            } else {
                assert(scan_bytes(c, p) == Scan::More);
            }
        } else {
            assert(scan_bytes(c, p) == Scan::More);
        }
    }
}

proof fn lemma_details_prefix(b: Seq<u8>, c: Seq<u8>, p: int)
    requires
        is_prefix(c, b),
        0 <= p,
    ensures
        on_prefix(v2::scan_fatal_details(b, p), v2::scan_fatal_details(c, p), c.len() as int),
{
    lemma_fixed_prefix(b, c, p + 1, v2::calibration_rules());
    lemma_fixed_prefix(b, c, p + 1, v2::separated_u16_rules());
    if p < c.len() {
        assert(c[p] == b[p]);
    }
}

proof fn lemma_envelope_prefix(b: Seq<u8>, c: Seq<u8>, k: u8, v: u8)
    requires
        is_prefix(c, b),
    ensures
        on_prefix(scan_envelope(b, k, v), scan_envelope(c, k, v), c.len() as int),
{
    reveal(scan_envelope);
    lemma_fixed_prefix(b, c, 0, prefix_rules(k, v));
    lemma_bytes_prefix(b, c, 3);
    if let Scan::Next(q) = scan_text(b, 3) {
        lemma_fixed_prefix(b, c, q as int, envelope_tail_rules());
    }
}

proof fn lemma_simple_prefix(b: Seq<u8>, c: Seq<u8>, k: u8, v: u8, rules: Seq<ByteRule>)
    requires
        is_prefix(c, b),
    ensures
        on_prefix(scan_simple(b, k, v, rules), scan_simple(c, k, v, rules), c.len() as int),
{
    lemma_envelope_prefix(b, c, k, v);
    if let Scan::Next(p) = scan_envelope(b, k, v) {
        lemma_fixed_prefix(b, c, p as int, rules);
    }
}

proof fn lemma_array_kind_prefix(
    b: Seq<u8>,
    c: Seq<u8>,
    k: u8,
    v: u8,
    head: Seq<ByteRule>,
    tail: Seq<ByteRule>,
)
    requires
        is_prefix(c, b),
    ensures
        on_prefix(
            match scan_simple(b, k, v, head) {
                Scan::Next(p) => match scan_bytes(b, p as int) {
                    Scan::Next(q) => scan_fixed(b, q as int, tail),
                    o => o,
                },
                o => o,
            },
            match scan_simple(c, k, v, head) {
                Scan::Next(p) => match scan_bytes(c, p as int) {
                    Scan::Next(q) => scan_fixed(c, q as int, tail),
                    o => o,
                },
                o => o,
            },
            c.len() as int,
        ),
{
    lemma_simple_prefix(b, c, k, v, head);
    if let Scan::Next(p) = scan_simple(b, k, v, head) {
        lemma_bytes_prefix(b, c, p as int);
        if let Scan::Next(q) = scan_bytes(b, p as int) {
            lemma_fixed_prefix(b, c, q as int, tail);
        }
    }
}

proof fn lemma_fatal_error_prefix(b: Seq<u8>, c: Seq<u8>)
    requires
        is_prefix(c, b),
    ensures
        on_prefix(v2::scan_fatal_error(b), v2::scan_fatal_error(c), c.len() as int),
{
    reveal(v2::scan_fatal_error);
    lemma_simple_prefix(b, c, 69, 2, v2::fatal_error_head_rules());
    if let Scan::Next(p) = scan_simple(b, 69, 2, v2::fatal_error_head_rules()) {
        lemma_details_prefix(b, c, p as int);
        if let Scan::Next(q) = v2::scan_fatal_details(b, p as int) {
            lemma_fixed_prefix(b, c, q as int, v2::end_rules());
        }
    }
}

proof fn lemma_eol_prefix(b: Seq<u8>, c: Seq<u8>)
    requires
        is_prefix(c, b),
    ensures
        on_prefix(v2::scan_eol_test_snapshot(b), v2::scan_eol_test_snapshot(c), c.len() as int),
{
    reveal(v2::scan_eol_test_snapshot);
    lemma_simple_prefix(b, c, 76, 2, v2::eol_test_snapshot_head_rules());
    if let Scan::Next(p) = scan_simple(b, 76, 2, v2::eol_test_snapshot_head_rules()) {
        if p < c.len() {
            assert(c[p as int] == b[p as int]);
        }
        lemma_fixed_prefix(b, c, p + 1, seq![ByteRule::Is(9)]);
        if let Scan::Next(a) = scan_fixed(b, p + 1, seq![ByteRule::Is(9)]) {
            lemma_bytes_prefix(b, c, a as int);
        }
        if let Scan::Next(q) = v2::scan_eol_content(b, p as int) {
            lemma_fixed_prefix(b, c, q as int, v2::end_rules());
        }
    }
}

/// Every kind of message body of protocol v2 reads as incomplete on the prefixes of a body that
/// reads through
proof fn lemma_kind_prefix_v2(b: Seq<u8>, c: Seq<u8>)
    requires
        is_prefix(c, b),
        b.len() > 0,
    ensures
        on_prefix(v2::scan_message(b), v2::scan_message(c), c.len() as int) || c.len() == 0,
{
    if c.len() > 0 {
        assert(c[0] == b[0]);
        reveal(scan_boot);
        reveal(scan_control_ack);
        reveal(v2::scan_stopped);
        reveal(v2::scan_data_snapshot);
        reveal(v2::scan_machine_state_snapshot);
        reveal(v2::scan_alarm_trap);
        let k = b[0];
        if k == 66 {
            lemma_simple_prefix(b, c, 66, 2, crate::parsers::boot_rules());
        } else if k == 65 {
            lemma_simple_prefix(b, c, 65, 2, crate::parsers::control_ack_rules());
        } else if k == 79 {
            lemma_array_kind_prefix(b, c, 79, 2, v2::stopped_head_rules(), v2::stopped_tail_rules());
        } else if k == 68 {
            lemma_simple_prefix(b, c, 68, 2, v2::data_snapshot_tail_rules());
        } else if k == 83 {
            lemma_array_kind_prefix(
                b,
                c,
                83,
                2,
                v2::machine_state_snapshot_head_rules(),
                v2::machine_state_snapshot_tail_rules(),
            );
        } else if k == 84 {
            lemma_simple_prefix(b, c, 84, 2, v2::alarm_trap_tail_rules());
        } else if k == 69 {
            lemma_fatal_error_prefix(b, c);
        } else if k == 76 {
            lemma_eol_prefix(b, c);
        }
    }
}

/// Every kind of message body of protocol v1 reads as incomplete on the prefixes of a body that
/// reads through
proof fn lemma_kind_prefix_v1(b: Seq<u8>, c: Seq<u8>)
    requires
        is_prefix(c, b),
        b.len() > 0,
    ensures
        on_prefix(v1::scan_message(b), v1::scan_message(c), c.len() as int) || c.len() == 0,
{
    if c.len() > 0 {
        assert(c[0] == b[0]);
        reveal(scan_boot);
        reveal(scan_control_ack);
        reveal(v1::scan_stopped);
        reveal(v1::scan_data_snapshot);
        reveal(v1::scan_machine_state_snapshot);
        reveal(v1::scan_alarm_trap);
        let k = b[0];
        if k == 66 {
            lemma_simple_prefix(b, c, 66, 1, crate::parsers::boot_rules());
        } else if k == 65 {
            lemma_simple_prefix(b, c, 65, 1, crate::parsers::control_ack_rules());
        } else if k == 79 {
            lemma_simple_prefix(b, c, 79, 1, v1::stopped_tail_rules());
        } else if k == 68 {
            lemma_simple_prefix(b, c, 68, 1, v1::data_snapshot_tail_rules());
        } else if k == 83 {
            lemma_array_kind_prefix(
                b,
                c,
                83,
                1,
                v1::machine_state_snapshot_head_rules(),
                v1::machine_state_snapshot_tail_rules(),
            );
        } else if k == 84 {
            lemma_simple_prefix(b, c, 84, 1, v1::alarm_trap_tail_rules());
        }
    }
}

/// A prefix of a protocol v2 body that reads back, followed by the CRC and footer, reads as
/// incomplete while it is shorter than the body, and as the body once it holds it
#[verifier::rlimit(100)]
#[verifier::spinoff_prover]
proof fn lemma_body_prefix_v2(m: TelemetryMessage, k: int)
    requires
        reads_back_v2(m),
        0 <= k <= (payload_v2(m) + trailer_of(payload_v2(m))).len(),
    ensures
        ({
            let body = payload_v2(m) + trailer_of(payload_v2(m));
            let n = payload_v2(m).len() as int;
            scan_body(body.subrange(0, k)) == if k < n {
                Scan::More
            } else {
                Scan::Next(n as usize)
            }
        }),
{
    reveal(scan_body);
    let payload = payload_v2(m);
    let body = payload + trailer_of(payload);
    lemma_body_reads_back_v2(m, trailer_of(payload));
    let c = body.subrange(0, k);
    assert(is_prefix(c, body));
    lemma_kind_prefix_v2(body, c);
}

/// Protocol v2 reads the start of a protocol v1 body as incomplete or rejects it, and rejects it
/// once the version byte is there
#[verifier::spinoff_prover]
proof fn lemma_v2_on_v1_start(c: Seq<u8>)
    requires
        c.len() >= 1,
        c.len() >= 2 ==> c[1] == 58,
        c.len() >= 3 ==> c[2] == 1,
        c.len() <= usize::MAX,
    ensures
        v2::scan_message(c) == Scan::More || v2::scan_message(c) == Scan::Bad,
        c.len() >= 3 ==> v2::scan_message(c) == Scan::Bad,
{
    reveal(scan_envelope);
    reveal(scan_boot);
    reveal(scan_control_ack);
    reveal(v2::scan_stopped);
    reveal(v2::scan_data_snapshot);
    reveal(v2::scan_machine_state_snapshot);
    reveal(v2::scan_alarm_trap);
    reveal(v2::scan_fatal_error);
    reveal(v2::scan_eol_test_snapshot);
    let kind = c[0];
    let i: int = 2;
    if c.len() >= 3 {
        assert(!crate::wire::rule_ok(prefix_rules(kind, 2)[i], c[0 + i]));
        assert(scan_envelope(c, kind, 2) == Scan::Bad);
    } else {
        assert(scan_fixed(c, 0, prefix_rules(kind, 2)) == Scan::More);
        assert(scan_envelope(c, kind, 2) == Scan::More);
    }
}

/// A prefix of a protocol v1 body that reads back, followed by the CRC and footer, reads as
/// incomplete while it is shorter than the body, and as the body once it holds it
proof fn lemma_body_prefix_v1(m: TelemetryMessage, k: int)
    requires
        reads_back_v1(m),
        0 <= k <= (payload_v1(m) + trailer_of(payload_v1(m))).len(),
    ensures
        ({
            let body = payload_v1(m) + trailer_of(payload_v1(m));
            let n = payload_v1(m).len() as int;
            scan_body(body.subrange(0, k)) == if k < n {
                Scan::More
            } else {
                Scan::Next(n as usize)
            }
        }),
{
    reveal(scan_body);
    let payload = payload_v1(m);
    let body = payload + trailer_of(payload);
    lemma_body_reads_back_v1(m, trailer_of(payload));
    let c = body.subrange(0, k);
    assert(is_prefix(c, body));
    lemma_kind_prefix_v1(body, c);
    if k > 0 {
        if k >= 2 {
            assert(c[1] == body[1]);
        }
        if k >= 3 {
            assert(c[2] == body[2]);
        }
        lemma_v2_on_v1_start(c);
    }
}

/// A frame whose body reads through, and whose prefixes read as the body's prefixes do, is
/// incomplete on every part short of the whole frame
proof fn lemma_frame_prefix_of_body(payload: Seq<u8>, j: int)
    requires
        payload.len() <= 0x1000,
        0 <= j < frame_bytes(payload).len(),
        scan_body(payload + trailer_of(payload)) == Scan::Next(payload.len() as usize),
        j >= 2 ==> scan_body((payload + trailer_of(payload)).subrange(0, j - 2)) == if j - 2
            < payload.len() {
            Scan::More
        } else {
            Scan::Next(payload.len() as usize)
        },
    ensures
        frame_outcome(frame_bytes(payload).subrange(0, j)) == FrameOutcome::NeedMore,
{
    reveal(frame_outcome);
    let trailer = trailer_of(payload);
    let f = frame_bytes(payload);
    assert(f =~= seq![0x03u8, 0x0c] + (payload + trailer));
    let c = f.subrange(0, j);
    assert(is_prefix(c, f));
    assert forall|i: int| 0 <= i < header_rules().len() implies crate::wire::rule_ok(
        #[trigger] header_rules()[i],
        f[0 + i],
    ) by {}
    lemma_fixed_prefix(f, c, 0, header_rules());
    if j >= 2 {
        let n = payload.len() as int;
        assert(c.subrange(2, j) =~= (payload + trailer).subrange(0, j - 2));
        assert forall|i: int| 0 <= i < trailer_rules().len() implies crate::wire::rule_ok(
            #[trigger] trailer_rules()[i],
            f[2 + n + i],
        ) by {}
        crate::wire::lemma_fixed_ok(f, 2 + n, trailer_rules());
        lemma_fixed_prefix(f, c, 2 + n, trailer_rules());
    }
}

/// Fed the frame of a message that reads back, in protocol v1 or v2, a part at a time, a reader
/// finds every part short of the whole frame incomplete, and reads the message once the last byte
/// is there
pub proof fn lemma_written_frame_prefixes(m: TelemetryMessage, v: u8, j: int)
    requires
        (v == 1 && reads_back_v1(m)) || (v == 2 && reads_back_v2(m)),
        0 <= j < written_frame(m, v).len(),
    ensures
        frame_outcome(written_frame(m, v).subrange(0, j)) == FrameOutcome::NeedMore,
        frame_outcome(written_frame(m, v)) == FrameOutcome::Record(written_frame(m, v).len() as usize),
{
    crate::round_trip::lemma_written_frame_reads_back(m, v);
    if v == 1 {
        let payload = payload_v1(m);
        lemma_body_reads_back_v1(m, trailer_of(payload));
        if j >= 2 {
            lemma_body_prefix_v1(m, j - 2);
        }
        lemma_frame_prefix_of_body(payload, j);
    } else {
        let payload = payload_v2(m);
        lemma_body_reads_back_v2(m, trailer_of(payload));
        if j >= 2 {
            lemma_body_prefix_v2(m, j - 2);
        }
        lemma_frame_prefix_of_body(payload, j);
    }
}

} // verus!
