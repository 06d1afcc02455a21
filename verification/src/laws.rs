//! Properties that relate several functions of the library.

use vstd::prelude::*;
use crate::moat1_translator::{
    dangerous_patterns, translator_rejection, output_prefix, with_task_id, StructuredCommand,
    MAX_PATH_LEN, MAX_PAYLOAD_BYTES,
};
use crate::moat2_sandbox::{
    header_rejection, minimal_wasm_bytes, sandbox_verdict, wasm_compile_outcome,
    wasm_instantiate_outcome, wasm_magic, wasm_start_outcome,
};
use crate::wasm_sections::declares_start;
use crate::moat3_inspector::{blacklist, is_clean, violations_of, violations_upto};
use crate::text::occurs_at;
use crate::worker::{transition, WorkerAction, WorkerEvent, WorkerPhase};
use crate::text::{contains_seq, lemma_trim_idempotent, starts_with_seq, trim_seq, utf8_len};

verus! {

/// The module that `BurnerSandbox::minimal_valid_wasm` returns passes the
/// header checks of `BurnerSandbox::test_execute`, so it always reaches the
/// engine, and it declares no start function, so its run always ends.
pub proof fn lemma_minimal_module_passes_header()
    ensures
        header_rejection(minimal_wasm_bytes()) is None,
        !declares_start(minimal_wasm_bytes()),
{
    assert(minimal_wasm_bytes().subrange(0, 4) =~= wasm_magic());
}

/// A command the translator admits is confined: its target lies in `./output/`
/// and names no dangerous fragment, its payload and path fit their limits,
/// and it carries the id the translator assigned, whatever the input claimed.
pub proof fn lemma_admitted_command_is_confined(
    raw: Seq<char>,
    parsed: Option<StructuredCommand>,
    assigned_id: usize,
)
    requires
        translator_rejection(raw, parsed) is None,
    ensures
        parsed is Some,
        ({
            let c = with_task_id(parsed->0, assigned_id);
            &&& c.task_id == assigned_id
            &&& starts_with_seq(c.target_path@, output_prefix())
            &&& forall|i: int|
                0 <= i < dangerous_patterns().len() ==> !contains_seq(
                    c.target_path@,
                    #[trigger] dangerous_patterns()[i],
                )
            &&& utf8_len(c.code_payload@) <= MAX_PAYLOAD_BYTES
            &&& utf8_len(c.target_path@) <= MAX_PATH_LEN
        }),
{
}

/// The translator's verdict does not depend on surrounding whitespace: judging the
/// trimmed input, as the schema reader sees it, gives the same verdict as
/// judging the raw input.
pub proof fn lemma_verdict_ignores_padding(raw: Seq<char>, parsed: Option<StructuredCommand>)
    ensures
        translator_rejection(trim_seq(raw), parsed) == translator_rejection(raw, parsed),
{
    lemma_trim_idempotent(raw);
}

/// A run that contains `a` contains every run of characters that `a`
/// contains.
pub proof fn lemma_contains_transitive(b: Seq<char>, a: Seq<char>, t: Seq<char>)
    requires
        contains_seq(b, a),
        contains_seq(a, t),
    ensures
        contains_seq(b, t),
{
    let j = choose|j: int| occurs_at(b, a, j);
    let i = choose|i: int| occurs_at(a, t, i);
    assert(b.subrange(i + j, i + j + t.len()) =~= a.subrange(i, i + t.len()));
    assert(occurs_at(b, t, i + j));
}

proof fn lemma_violations_upto_grow(a: Seq<char>, b: Seq<char>, n: int)
    requires
        contains_seq(b, a),
        0 <= n <= blacklist().len(),
    ensures
        forall|v: Seq<char>| violations_upto(a, n).contains(v) ==> violations_upto(b, n).contains(v),
    decreases n,
{
    if n > 0 {
        lemma_violations_upto_grow(a, b, n - 1);
        let entry = blacklist()[n - 1];
        if contains_seq(a, entry.0) {
            lemma_contains_transitive(b, a, entry.0);
        }
        assert forall|v: Seq<char>| violations_upto(a, n).contains(v) implies violations_upto(
            b,
            n,
        ).contains(v) by {
            let pa = violations_upto(a, n - 1);
            let pb = violations_upto(b, n - 1);
            if pa.contains(v) {
                assert(pb.contains(v));
                let k = choose|k: int| 0 <= k < pb.len() && pb[k] == v;
                if contains_seq(b, entry.0) {
                    assert(pb.push(crate::moat3_inspector::violation_text(entry.0, entry.1))[k] == v);
                }
            } else {
                assert(contains_seq(a, entry.0));
                let pushed = pb.push(crate::moat3_inspector::violation_text(entry.0, entry.1));
                assert(pushed[pb.len() as int] == v);
            }
        }
    }
}

/// Text added around code never hides a blacklisted token: when `a` occurs
/// in `b`, every violation reported for `a` is reported for `b` too, so `b`
/// fails inspection whenever `a` does.
pub proof fn lemma_surrounding_text_keeps_violations(a: Seq<char>, b: Seq<char>)
    requires
        contains_seq(b, a),
    ensures
        forall|v: Seq<char>| violations_of(a).contains(v) ==> violations_of(b).contains(v),
        !is_clean(a) ==> !is_clean(b),
{
    lemma_violations_upto_grow(a, b, blacklist().len() as int);
    if !is_clean(a) {
        let i = choose|i: int| 0 <= i < blacklist().len() && contains_seq(a, #[trigger] blacklist()[i].0);
        lemma_contains_transitive(b, a, blacklist()[i].0);
    }
}

/// Task ids of the commands among `events`, in order.
pub open spec fn command_ids(events: Seq<WorkerEvent>) -> Seq<usize>
    decreases events.len(),
{
    if events.len() == 0 {
        Seq::empty()
    } else {
        let prev = command_ids(events.drop_last());
        match events.last() {
            WorkerEvent::CommandReceived(cmd) => prev.push(cmd.task_id),
            _ => prev,
        }
    }
}

/// Task ids of the receipts among `actions`, in order.
pub open spec fn receipt_ids(actions: Seq<WorkerAction>) -> Seq<usize>
    decreases actions.len(),
{
    if actions.len() == 0 {
        Seq::empty()
    } else {
        let prev = receipt_ids(actions.drop_last());
        match actions.last() {
            WorkerAction::SendReceipt { receipt } => prev.push(receipt.task_id),
            _ => prev,
        }
    }
}

/// `phases`, `events` and `actions` record a run of a worker from its idle
/// start: each event is one its phase expects, and each step is a step of
/// `WorkerMote::step`.
pub open spec fn is_run(
    phases: Seq<WorkerPhase>,
    events: Seq<WorkerEvent>,
    actions: Seq<WorkerAction>,
) -> bool {
    &&& phases.len() == events.len() + 1
    &&& actions.len() == events.len()
    &&& phases[0] is Idle
    &&& forall|i: int|
        0 <= i < events.len() ==> phases[i].expects(#[trigger] events[i]) && transition(
            phases[i],
            events[i],
            phases[i + 1],
            actions[i],
        )
}

/// One sealed receipt per command, in order: over any run, the receipts
/// sent name the received commands' tasks in the order they came, except
/// for the command still in flight, if any. In particular, once the worker
/// has stopped after its channel closed, every command has had exactly one
/// receipt.
pub proof fn lemma_one_receipt_per_command(
    phases: Seq<WorkerPhase>,
    events: Seq<WorkerEvent>,
    actions: Seq<WorkerAction>,
)
    requires
        is_run(phases, events, actions),
    ensures
        match phases.last().task_in_flight() {
            None => receipt_ids(actions) == command_ids(events),
            Some(t) => command_ids(events).len() > 0 && receipt_ids(actions) == command_ids(
                events,
            ).drop_last() && t == command_ids(events).last(),
        },
        phases.last() is Stopped ==> receipt_ids(actions) == command_ids(events),
    decreases events.len(),
{
    if events.len() > 0 {
        let n = events.len() - 1;
        let p2 = phases.drop_last();
        let e2 = events.drop_last();
        let a2 = actions.drop_last();
        assert forall|i: int| 0 <= i < e2.len() implies p2[i].expects(#[trigger] e2[i]) && transition(
            p2[i],
            e2[i],
            p2[i + 1],
            a2[i],
        ) by {
            assert(phases[i].expects(events[i]));
        }
        lemma_one_receipt_per_command(p2, e2, a2);
        assert(phases[n].expects(events[n]));
        assert(p2.last() == phases[n]);
        let cs = command_ids(e2);
        let rs = receipt_ids(a2);
        match events[n] {
            WorkerEvent::CommandReceived(cmd) => {
                assert(command_ids(events) == cs.push(cmd.task_id));
                if let WorkerAction::SendReceipt { receipt } = actions[n] {
                    assert(receipt_ids(actions) == rs.push(receipt.task_id));
                } else {
                    assert(receipt_ids(actions) == rs);
                    assert(cs.push(cmd.task_id).drop_last() =~= cs);
                }
            },
            _ => {
                assert(command_ids(events) == cs);
                if let WorkerAction::SendReceipt { receipt } = actions[n] {
                    assert(receipt_ids(actions) == rs.push(receipt.task_id));
                    assert(cs.drop_last().push(cs.last()) =~= cs);
                } else {
                    assert(receipt_ids(actions) == rs);
                }
            },
        }
    }
}

/// The target path is confined the way the translator demands, written out
/// in full: under `./output/`, free of every traversal and system-area
/// fragment, and both payload and path within their byte limits.
pub open spec fn confined_as_written(c: StructuredCommand) -> bool {
    let p = c.target_path@;
    &&& starts_with_seq(p, "./output/"@)
    &&& !contains_seq(p, "../"@)
    &&& !contains_seq(p, ".\\"@)
    &&& !contains_seq(p, "/etc"@)
    &&& !contains_seq(p, "/proc"@)
    &&& !contains_seq(p, "/sys"@)
    &&& !contains_seq(p, "/dev"@)
    &&& !contains_seq(p, "C:\\Windows"@)
    &&& vstd::utf8::encode_utf8(c.code_payload@).len() <= 65536
    &&& vstd::utf8::encode_utf8(p).len() <= 512
}

/// The translator admits every confined command, whatever feature it asks
/// for: non-empty input whose schema reading is a command with a confined
/// target and payload is never rejected.
pub proof fn lemma_confined_command_is_admitted(raw: Seq<char>, c: StructuredCommand)
    requires
        trim_seq(raw).len() > 0,
        confined_as_written(c),
    ensures
        translator_rejection(raw, Some(c)) is None,
{
    let p = c.target_path@;
    assert forall|i: int| 0 <= i < dangerous_patterns().len() implies !contains_seq(
        p,
        #[trigger] dangerous_patterns()[i],
    ) by {
        assert(dangerous_patterns()[0] == "../"@);
        assert(dangerous_patterns()[1] == ".\\"@);
        assert(dangerous_patterns()[2] == "/etc"@);
        assert(dangerous_patterns()[3] == "/proc"@);
        assert(dangerous_patterns()[4] == "/sys"@);
        assert(dangerous_patterns()[5] == "/dev"@);
        assert(dangerous_patterns()[6] == "C:\\Windows"@);
    }
    assert(utf8_len(c.code_payload@) <= MAX_PAYLOAD_BYTES);
    assert(utf8_len(p) <= MAX_PATH_LEN);
}

/// `e` is a health sample that breached neither ceiling.
pub open spec fn within_ceilings(e: WorkerEvent) -> bool {
    e matches WorkerEvent::HealthSampled { cpu_breach, mem_breach, .. } && !cpu_breach && !mem_breach
}

/// `e` reports a write that succeeded.
pub open spec fn write_succeeded(e: WorkerEvent) -> bool {
    e matches WorkerEvent::PayloadWritten(Ok(_))
}

/// A receipt reports success only for a payload that was written and then
/// passed the health check: a successful receipt comes from the checking
/// phase on a sample within both ceilings, every other receipt reports
/// failure, and the checking phase is reached only from a write that
/// succeeded.
pub proof fn lemma_success_only_after_healthy_deploy(
    p: WorkerPhase,
    e: WorkerEvent,
    q: WorkerPhase,
    a: WorkerAction,
)
    requires
        transition(p, e, q, a),
    ensures
        a is SendReceipt ==> (a->receipt.success <==> (p is Checking && within_ceilings(e))),
        q is Checking ==> (p is Writing && write_succeeded(e)),
{
}

/// The header check refuses only input shorter than a header or without the
/// `\0asm` magic. Any other input reaches the engine, and the sandbox then
/// reports exactly the first engine stage that fails, with its text, or `Ok`
/// when the module compiles, instantiates and starts cleanly.
pub proof fn lemma_header_refuses_only_short_or_foreign(b: Seq<u8>)
    ensures
        header_rejection(b) is Some <==> (b.len() < 8 || b.subrange(0, 4) != seq![
            0x00u8,
            0x61u8,
            0x73u8,
            0x6du8,
        ]),
        header_rejection(b) is None ==> sandbox_verdict(b) == match wasm_compile_outcome(b) {
            Err(t) => Err("[MOAT2] WASM compile failed: "@ + t),
            Ok(_) => match wasm_instantiate_outcome(b) {
                Err(t) => Err("[MOAT2] Instantiation failed: "@ + t),
                Ok(_) => match wasm_start_outcome(b) {
                    Some(Err(t)) => Err("[MOAT2] Module start/trap: "@ + t),
                    _ => Ok::<(), Seq<char>>(()),
                },
            },
        },
{
    assert(wasm_magic() =~= seq![0x00u8, 0x61u8, 0x73u8, 0x6du8]);
}

/// The code holds none of the blacklisted tokens, listed in full.
pub open spec fn free_of_listed_tokens(code: Seq<char>) -> bool {
    &&& !contains_seq(code, "std::net::TcpListener"@)
    &&& !contains_seq(code, "std::net::UdpSocket"@)
    &&& !contains_seq(code, "std::net::TcpStream::connect"@)
    &&& !contains_seq(code, "std::fs::remove_dir_all"@)
    &&& !contains_seq(code, "std::fs::remove_file"@)
    &&& !contains_seq(code, "std::process::Command"@)
    &&& !contains_seq(code, "std::process::exit"@)
    &&& !contains_seq(code, "libc::system"@)
    &&& !contains_seq(code, "/dev/mem"@)
    &&& !contains_seq(code, "/dev/kmem"@)
    &&& !contains_seq(code, "chmod"@)
    &&& !contains_seq(code, "setuid"@)
    &&& !contains_seq(code, "ptrace"@)
    &&& !contains_seq(code, "mprotect"@)
    &&& !contains_seq(code, "include_str!(\"/etc"@)
}

/// Inspection passes exactly when the code holds none of the fifteen
/// blacklisted tokens: each of them blocks a payload wherever it occurs, and
/// nothing else does.
pub proof fn lemma_inspection_blocks_exactly_listed_tokens(code: Seq<char>)
    ensures
        is_clean(code) <==> free_of_listed_tokens(code),
        violations_of(code).len() == 0 <==> free_of_listed_tokens(code),
{
    crate::moat3_inspector::lemma_no_violations_iff_clean(code);
    assert(blacklist().len() == 15);
        assert(blacklist()[0].0 == "std::net::TcpListener"@);
        assert(blacklist()[1].0 == "std::net::UdpSocket"@);
        assert(blacklist()[2].0 == "std::net::TcpStream::connect"@);
        assert(blacklist()[3].0 == "std::fs::remove_dir_all"@);
        assert(blacklist()[4].0 == "std::fs::remove_file"@);
        assert(blacklist()[5].0 == "std::process::Command"@);
        assert(blacklist()[6].0 == "std::process::exit"@);
        assert(blacklist()[7].0 == "libc::system"@);
        assert(blacklist()[8].0 == "/dev/mem"@);
        assert(blacklist()[9].0 == "/dev/kmem"@);
        assert(blacklist()[10].0 == "chmod"@);
        assert(blacklist()[11].0 == "setuid"@);
        assert(blacklist()[12].0 == "ptrace"@);
        assert(blacklist()[13].0 == "mprotect"@);
        assert(blacklist()[14].0 == "include_str!(\"/etc"@);
    if free_of_listed_tokens(code) {
        assert forall|i: int| 0 <= i < blacklist().len() implies !contains_seq(
            code,
            #[trigger] blacklist()[i].0,
        ) by {}
    }
    if is_clean(code) {
        assert(!contains_seq(code, blacklist()[0].0));
        assert(!contains_seq(code, blacklist()[1].0));
        assert(!contains_seq(code, blacklist()[2].0));
        assert(!contains_seq(code, blacklist()[3].0));
        assert(!contains_seq(code, blacklist()[4].0));
        assert(!contains_seq(code, blacklist()[5].0));
        assert(!contains_seq(code, blacklist()[6].0));
        assert(!contains_seq(code, blacklist()[7].0));
        assert(!contains_seq(code, blacklist()[8].0));
        assert(!contains_seq(code, blacklist()[9].0));
        assert(!contains_seq(code, blacklist()[10].0));
        assert(!contains_seq(code, blacklist()[11].0));
        assert(!contains_seq(code, blacklist()[12].0));
        assert(!contains_seq(code, blacklist()[13].0));
        assert(!contains_seq(code, blacklist()[14].0));
    }
}

} // verus!
