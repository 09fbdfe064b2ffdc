//! Decisions of the automatic unpacker: it watches `VirtualProtect` calls
//! that make memory readable, writable and executable, follows the first
//! such region until it is executed, and hands its bytes to analysis.
//!
//! Every SDK interaction (replaying, reading memory and registers) is done
//! by the caller; the functions here decide what to ask next.
use vstd::prelude::*;

use crate::context::{context_architecture, context_pc, ProcessorArchitecture, RegisterContext};
use crate::error::Error;
use crate::events::{EventType, ModuleLoaded};
use crate::pe::{export_by_name, export_span_fits, export_span_overflows, pe_export_by_name, PeExport};
use crate::position::ReplayPosition;
use crate::replay::{MemoryRequest, MemoryWatchpointData};
use crate::text::{
    chars_of, hex_text, hex_text_padded, hex_value, lemma_hex_text_padded_reads_back, lemma_hex_text_reads_back, push_char,
    push_hex, push_hex_padded, push_str,
};

verus! {

/// The protection value `PAGE_EXECUTE_READWRITE`.
pub const PAGE_EXECUTE_READWRITE: u32 = 0x40;

/// How many payload instructions are shown.
pub const NUMBER_OF_INSTRUCTIONS_TO_PRINT: usize = 20;

/// The access mask bit of execution.
pub const EXECUTE_ACCESS: u8 = 4;

/// Unicode lower-casing of a string, as `str::to_lowercase` does it.
pub uninterp spec fn lowercase(s: Seq<char>) -> Seq<char>;

/// Lower-cases a string with `str::to_lowercase`.
///
/// Trusted: the result is the lower-cased form of the string; which
/// characters map to which is Unicode's table and is not stated here.
#[verifier::external_body]
pub(crate) fn to_lowercase(s: &str) -> (r: String)
    ensures
        r@ == lowercase(s@),
{
    s.to_lowercase()
}

/// `s` ends with `suffix`.
pub open spec fn has_suffix(s: Seq<char>, suffix: Seq<char>) -> bool {
    suffix.len() <= s.len() && s.skip(s.len() - suffix.len()) == suffix
}

/// Whether `s` ends with `suffix`.
pub fn ends_with(s: &Vec<char>, suffix: &Vec<char>) -> (r: bool)
    ensures
        r == has_suffix(s@, suffix@),
{
    let n = s.len();
    let m = suffix.len();
    if m > n {
        return false;
    }
    let start = n - m;
    let mut i: usize = 0;
    while i < m
        invariant
            n == s@.len(),
            m == suffix@.len(),
            start == n - m,
            i <= m,
            forall|j: int| 0 <= j < i ==> s@[start + j] == suffix@[j],
        decreases m - i,
    {
        if s[start + i] != suffix[i] {
            assert(s@.skip(start as int)[i as int] != suffix@[i as int]);
            return false;
        }
        i = i + 1;
    }
    assert(s@.skip(start as int) =~= suffix@);
    true
}

/// The load event of a module whose lower-cased name ends with `mod_lower`.
pub open spec fn loads_module(e: ModuleLoaded, mod_lower: Seq<char>) -> bool {
    has_suffix(lowercase(e.module.name@), mod_lower)
}

/// The first load event of the module whose lower-cased name ends with
/// `mod_lower`; not found when no event matches.
pub fn find_load_event_for_module(events: Vec<ModuleLoaded>, mod_lower: &str) -> (r: Result<ModuleLoaded, Error>)
    ensures
        r is Err <==> (forall|i: int| 0 <= i < events@.len() ==> !loads_module(#[trigger] events@[i], mod_lower@)),
        r matches Err(e) ==> e == Error::NotFound,
        r matches Ok(e) ==> exists|i: int|
            0 <= i < events@.len() && events@[i] == e && loads_module(e, mod_lower@)
                && (forall|j: int| 0 <= j < i ==> !loads_module(#[trigger] events@[j], mod_lower@)),
{
    let suffix = chars_of(mod_lower);
    let n = events.len();
    let mut i: usize = 0;
    while i < n
        invariant
            n == events@.len(),
            suffix@ == mod_lower@,
            i <= n,
            forall|j: int| 0 <= j < i ==> !loads_module(#[trigger] events@[j], mod_lower@),
        decreases n - i,
    {
        let lower = to_lowercase(events[i].module.name.as_str());
        let lower_chars = chars_of(lower.as_str());
        if ends_with(&lower_chars, &suffix) {
            let mut events = events;
            let e = events.swap_remove(i);
            return Ok(e);
        }
        i = i + 1;
    }
    Err(Error::NotFound)
}

/// Why an export address could not be computed.
#[derive(Clone, Copy, Debug, PartialEq, Eq, Structural)]
pub enum ExportError {
    /// The image is not a readable PE image or does not export the name.
    NotExported,
    /// The image's export directory ends beyond 32 bits.
    MalformedExportDirectory,
}

/// The address of an export in a loaded module: the module's base plus the
/// export's relative address; a forwarded export is not handled.
pub fn export_address(base: u64, export: Option<PeExport>) -> (r: Result<u64, ExportError>)
    requires
        export != Some(PeExport::Forward),
        export matches Some(PeExport::Symbol(rva)) ==> base + rva <= u64::MAX,
    ensures
        r is Err <==> export is None,
        r matches Err(e) ==> e == ExportError::NotExported,
        r matches Ok(a) ==> export matches Some(PeExport::Symbol(rva)) && a == base + rva,
{
    match export {
        Some(PeExport::Symbol(rva)) => Ok(base + rva as u64),
        _ => Err(ExportError::NotExported),
    }
}

/// The address at which `function_name` is loaded, given the load event of
/// its module and the module's image read at that position. An image whose
/// export directory ends beyond 32 bits is refused before any lookup. `None`
/// when the export is forwarded or its address would overflow, the cases
/// `export_address` leaves out.
pub fn get_module_base_address(event: &ModuleLoaded, image: &[u8], function_name: &str) -> (r: Option<Result<u64, ExportError>>)
    ensures
        r == Some(Err::<u64, ExportError>(ExportError::MalformedExportDirectory)) <==> export_span_overflows(image@),
        !export_span_overflows(image@) ==> {
            &&& r is None <==> (pe_export_by_name(image@, function_name@) == Some(PeExport::Forward)
                || (pe_export_by_name(image@, function_name@) matches Some(PeExport::Symbol(rva))
                    && event.module.address + rva > u64::MAX))
            &&& r matches Some(Err(e)) ==> e == ExportError::NotExported
                && pe_export_by_name(image@, function_name@) is None
            &&& r matches Some(Ok(a)) ==> pe_export_by_name(image@, function_name@) matches Some(PeExport::Symbol(rva))
                && a == event.module.address + rva
        },
{
    if !export_span_fits(image) {
        return Some(Err(ExportError::MalformedExportDirectory));
    }
    let export = export_by_name(image, function_name);
    match export {
        Some(PeExport::Forward) => None,
        Some(PeExport::Symbol(rva)) => {
            if event.module.address > u64::MAX - rva as u64 {
                None
            } else {
                Some(export_address(event.module.address, export))
            }
        },
        None => Some(export_address(event.module.address, export)),
    }
}

/// An execution watchpoint on one byte.
pub open spec fn execution_watch(address: u64) -> MemoryWatchpointData {
    MemoryWatchpointData { address, size: 1, access_mask: 4 }
}

/// The watchpoint that stops the replay when `address` is executed.
pub fn execution_watchpoint(address: u64) -> (r: MemoryWatchpointData)
    ensures
        r == execution_watch(address),
{
    MemoryWatchpointData { address, size: 1, access_mask: EXECUTE_ACCESS }
}

/// The code width the disassembler uses for a thread: 32 bits on x86, 64
/// on x64 (ARM64 is not handled).
pub fn bitness(ctx: &RegisterContext) -> (r: u32)
    requires
        context_architecture(*ctx) != ProcessorArchitecture::ARM64,
    ensures
        context_architecture(*ctx) == ProcessorArchitecture::X86 ==> r == 32,
        context_architecture(*ctx) == ProcessorArchitecture::X64 ==> r == 64,
{
    match ctx {
        RegisterContext::X86(_) => 32,
        _ => 64,
    }
}

/// The addresses the four first arguments of `VirtualProtect` are read
/// from: the stack slots above the return address on x86, the argument
/// registers otherwise (they are read through as addresses too).
pub open spec fn argument_slots(ctx: RegisterContext) -> Seq<u64> {
    match ctx {
        RegisterContext::X86(c) => seq![(c.esp + 4) as u64, (c.esp + 8) as u64, (c.esp + 0xc) as u64, (c.esp + 0x10) as u64],
        RegisterContext::X64(c) => seq![c.rcx, c.rdx, c.r8, c.r9],
        RegisterContext::ARM64(c) => seq![c.x[0], c.x[1], c.x[2], c.x[3]],
    }
}

/// The four reads that fetch the arguments of the intercepted call, each of
/// `pointer_size` bytes.
pub fn argument_reads(ctx: &RegisterContext, pointer_size: usize) -> (r: [MemoryRequest; 4])
    requires
        ctx matches RegisterContext::X86(c) ==> c.esp + 0x10 <= u32::MAX,
    ensures
        forall|i: int| 0 <= i < 4 ==> (#[trigger] r@[i]).address == argument_slots(*ctx)[i] && r@[i].size == pointer_size,
{
    let slots: [u64; 4] = match ctx {
        RegisterContext::X86(c) => [(c.esp + 4) as u64, (c.esp + 8) as u64, (c.esp + 0xc) as u64, (c.esp + 0x10) as u64],
        RegisterContext::X64(c) => [c.rcx, c.rdx, c.r8, c.r9],
        RegisterContext::ARM64(c) => [c.x[0], c.x[1], c.x[2], c.x[3]],
    };
    [
        MemoryRequest { address: slots[0], size: pointer_size },
        MemoryRequest { address: slots[1], size: pointer_size },
        MemoryRequest { address: slots[2], size: pointer_size },
        MemoryRequest { address: slots[3], size: pointer_size },
    ]
}

/// The little-endian value of four bytes.
pub open spec fn le_u32_value(b: Seq<u8>) -> u32 {
    (b[0] as nat + b[1] as nat * 0x100 + b[2] as nat * 0x10000 + b[3] as nat * 0x1000000) as u32
}

/// Reads four bytes as a little-endian `u32`; only four-byte reads are
/// accepted (a pointer-sized read on x64 is refused).
pub fn le_u32(bytes: &[u8]) -> (r: u32)
    requires
        bytes@.len() == 4,
    ensures
        r == le_u32_value(bytes@),
{
    let b0 = bytes[0] as u32;
    let b1 = bytes[1] as u32;
    let b2 = bytes[2] as u32;
    let b3 = bytes[3] as u32;
    assert(b0 + b1 * 0x100 + b2 * 0x10000 + b3 * 0x1000000 <= u32::MAX) by (nonlinear_arith)
        requires
            b0 < 256 && b1 < 256 && b2 < 256 && b3 < 256,
    ;
    b0 + b1 * 0x100 + b2 * 0x10000 + b3 * 0x1000000
}

/// The state of the unpacker between two SDK interactions.
#[derive(Clone, Copy, Debug, PartialEq, Eq, Structural)]
pub enum UnpackState {
    /// Replaying with an execution watchpoint on `VirtualProtect`.
    WatchingVirtualProtect { watch: MemoryWatchpointData },
    /// The replay stopped on `VirtualProtect`; its arguments are being read.
    ReadingArguments { watch: MemoryWatchpointData },
    /// Replaying with an execution watchpoint on the new region.
    WatchingPayload { size: u32 },
    /// Done.
    Finished,
}

/// What the SDK (or the caller) reports.
#[derive(Clone, Copy, Debug)]
pub enum UnpackEvent {
    /// A forward replay stopped for this reason.
    Stopped(EventType),
    /// The four first arguments of the intercepted call.
    Arguments([u32; 4]),
    /// The replay stopped on the payload, at this program counter.
    PayloadReached(u64),
}

/// What to do next.
#[derive(Clone, Copy, Debug, PartialEq, Eq, Structural)]
pub enum UnpackAction {
    /// Replay forward until the next event.
    ReplayForward,
    /// Read the arguments of the intercepted call.
    ReadArguments,
    /// Remove the first watchpoint, add the second, then replay forward.
    Rewatch { remove: MemoryWatchpointData, add: MemoryWatchpointData },
    /// Read and analyse the payload.
    AnalysePayload { address: u64, size: u32 },
    /// Stop.
    Stop,
}

/// The unpacker's transition: from a state and a report, the next state and
/// what to do.
pub open spec fn unpack_transition(state: UnpackState, event: UnpackEvent) -> (UnpackState, UnpackAction) {
    match (state, event) {
        (UnpackState::WatchingVirtualProtect { watch }, UnpackEvent::Stopped(reason)) =>
            if reason == EventType::MemoryWatchpoint {
                (UnpackState::ReadingArguments { watch }, UnpackAction::ReadArguments)
            } else {
                (UnpackState::Finished, UnpackAction::Stop)
            },
        (UnpackState::ReadingArguments { watch }, UnpackEvent::Arguments(args)) =>
            if args[2] != PAGE_EXECUTE_READWRITE {
                (UnpackState::WatchingVirtualProtect { watch }, UnpackAction::ReplayForward)
            } else {
                (
                    UnpackState::WatchingPayload { size: args[1] },
                    UnpackAction::Rewatch { remove: watch, add: execution_watch(args[0] as u64) },
                )
            },
        (UnpackState::WatchingPayload { size }, UnpackEvent::PayloadReached(pc)) =>
            (UnpackState::Finished, UnpackAction::AnalysePayload { address: pc, size }),
        _ => (UnpackState::Finished, UnpackAction::Stop),
    }
}

/// The first state and action: watch `VirtualProtect` and replay.
pub fn unpack_start(virtual_protect: u64) -> (r: (UnpackState, UnpackAction))
    ensures
        r == (UnpackState::WatchingVirtualProtect { watch: execution_watch(virtual_protect) }, UnpackAction::ReplayForward),
{
    (UnpackState::WatchingVirtualProtect { watch: execution_watchpoint(virtual_protect) }, UnpackAction::ReplayForward)
}

/// Takes one step of the unpacker.
pub fn unpack_step(state: UnpackState, event: UnpackEvent) -> (r: (UnpackState, UnpackAction))
    ensures
        r == unpack_transition(state, event),
{
    match (state, event) {
        (UnpackState::WatchingVirtualProtect { watch }, UnpackEvent::Stopped(reason)) => {
            if reason == EventType::MemoryWatchpoint {
                (UnpackState::ReadingArguments { watch }, UnpackAction::ReadArguments)
            } else {
                (UnpackState::Finished, UnpackAction::Stop)
            }
        },
        (UnpackState::ReadingArguments { watch }, UnpackEvent::Arguments(args)) => {
            if args[2] != PAGE_EXECUTE_READWRITE {
                (UnpackState::WatchingVirtualProtect { watch }, UnpackAction::ReplayForward)
            } else {
                (
                    UnpackState::WatchingPayload { size: args[1] },
                    UnpackAction::Rewatch { remove: watch, add: execution_watchpoint(args[0] as u64) },
                )
            }
        },
        (UnpackState::WatchingPayload { size }, UnpackEvent::PayloadReached(pc)) => {
            (UnpackState::Finished, UnpackAction::AnalysePayload { address: pc, size })
        },
        _ => (UnpackState::Finished, UnpackAction::Stop),
    }
}

/// The payload's program counter in a register context.
pub fn payload_pc(ctx: &RegisterContext) -> (r: u64)
    ensures
        r == context_pc(*ctx),
{
    ctx.pc()
}

/// The file name a payload is dumped to: `Payload-` and the position with
/// its colon replaced by an underscore, then `.dmp`.
pub open spec fn payload_file_name_text(p: ReplayPosition) -> Seq<char> {
    "Payload-"@ + hex_text(p.sequence as nat) + seq!['_'] + hex_text(p.steps as nat) + ".dmp"@
}

/// The file name a payload found at `position` is dumped to.
pub fn payload_file_name(position: &ReplayPosition) -> (r: String)
    ensures
        r@ == payload_file_name_text(*position),
{
    let mut s = String::new();
    push_str(&mut s, "Payload-");
    push_hex(&mut s, position.sequence);
    push_char(&mut s, '_');
    push_hex(&mut s, position.steps);
    push_str(&mut s, ".dmp");
    assert(s@ =~= payload_file_name_text(*position));
    s
}

/// What `iced_x86` decodes from `code` as `bitness`-bit machine code placed
/// at `ip`: each instruction's address and its Intel-syntax text, in order.
pub uninterp spec fn decoded_instructions(bitness: u32, code: Seq<u8>, ip: u64) -> Seq<(u64, Seq<char>)>;

/// The plain-value view of a decoded instruction.
pub open spec fn instruction_view(i: (u64, String)) -> (u64, Seq<char>) {
    (i.0, i.1@)
}

/// Decodes `code` with `iced_x86::Decoder::with_ip` (no decoder options)
/// and renders each instruction with `IntelFormatter`'s `format`.
///
/// Trusted: the result is what `iced_x86` decodes and renders for these
/// bytes, this bitness and this address. `with_ip` panics on any bitness but
/// 16, 32 and 64, hence the requirement.
#[verifier::external_body]
fn decode_instructions(bitness: u32, code: &[u8], ip: u64) -> (r: Vec<(u64, String)>)
    requires
        bitness == 16 || bitness == 32 || bitness == 64,
    ensures
        r@.map_values(|i: (u64, String)| instruction_view(i)) == decoded_instructions(bitness, code@, ip),
{
    let mut decoder = iced_x86::Decoder::with_ip(bitness, code, ip, iced_x86::DecoderOptions::NONE);
    let mut formatter = iced_x86::IntelFormatter::new();
    let mut out = Vec::new();
    for insn in decoder.iter() {
        let mut text = String::new();
        iced_x86::Formatter::format(&mut formatter, &insn, &mut text);
        out.push((insn.ip(), text));
    }
    out
}

/// One line of the payload listing: the address in the `{:#010x}` form
/// (`0x` and at least eight digits), a space, and the instruction.
pub open spec fn listing_line(ip: u64, text: Seq<char>) -> Seq<char> {
    "0x"@ + (if ip < 0x1_0000_0000 { hex_text_padded(ip as nat, 8) } else { hex_text(ip as nat) }) + seq![' '] + text
}

/// The payload listing: a line for each of the first
/// `NUMBER_OF_INSTRUCTIONS_TO_PRINT` instructions, then `...` when there are
/// more.
pub open spec fn listing_lines(instrs: Seq<(u64, Seq<char>)>) -> Seq<Seq<char>> {
    if instrs.len() > NUMBER_OF_INSTRUCTIONS_TO_PRINT {
        instrs.take(NUMBER_OF_INSTRUCTIONS_TO_PRINT as int).map_values(|i: (u64, Seq<char>)| listing_line(i.0, i.1)).push("..."@)
    } else {
        instrs.map_values(|i: (u64, Seq<char>)| listing_line(i.0, i.1))
    }
}

fn listing_line_of(ip: u64, text: &String) -> (r: String)
    ensures
        r@ == listing_line(ip, text@),
{
    let mut line = String::new();
    push_str(&mut line, "0x");
    if ip < 0x1_0000_0000 {
        push_hex_padded(&mut line, ip, 8);
    } else {
        push_hex(&mut line, ip);
    }
    push_char(&mut line, ' ');
    push_str(&mut line, text.as_str());
    assert(line@ =~= listing_line(ip, text@));
    line
}

/// The listing of decoded instructions (see `listing_lines`).
pub fn format_listing(instrs: &Vec<(u64, String)>) -> (r: Vec<String>)
    ensures
        r@.map_values(|s: String| s@) == listing_lines(instrs@.map_values(|i: (u64, String)| instruction_view(i))),
{
    let ghost view = instrs@.map_values(|i: (u64, String)| instruction_view(i));
    let n = instrs.len();
    let shown = if n > NUMBER_OF_INSTRUCTIONS_TO_PRINT { NUMBER_OF_INSTRUCTIONS_TO_PRINT } else { n };
    let mut out: Vec<String> = Vec::new();
    let mut i: usize = 0;
    while i < shown
        invariant
            n == instrs@.len(),
            shown <= n,
            view == instrs@.map_values(|i: (u64, String)| instruction_view(i)),
            i <= shown,
            out@.map_values(|s: String| s@) == view.take(i as int).map_values(|i: (u64, Seq<char>)| listing_line(i.0, i.1)),
        decreases shown - i,
    {
        let ghost before = out@;
        let (ip, text) = &instrs[i];
        let line = listing_line_of(*ip, text);
        out.push(line);
        assert(view.take(i + 1) =~= view.take(i as int).push(view[i as int]));
        assert(out@.map_values(|s: String| s@) =~= before.map_values(|s: String| s@).push(listing_line(*ip, text@)));
        assert(view.take(i + 1).map_values(|i: (u64, Seq<char>)| listing_line(i.0, i.1))
            =~= view.take(i as int).map_values(|i: (u64, Seq<char>)| listing_line(i.0, i.1)).push(listing_line(*ip, text@)));
        i = i + 1;
    }
    if n > NUMBER_OF_INSTRUCTIONS_TO_PRINT {
        let ghost before = out@;
        let mut more = String::new();
        push_str(&mut more, "...");
        out.push(more);
        assert(out@.map_values(|s: String| s@) =~= before.map_values(|s: String| s@).push("..."@));
    } else {
        assert(view.take(n as int) =~= view);
    }
    out
}

/// The listing of a payload: `code` decoded as `bitness`-bit machine code
/// placed at `ip` (see `listing_lines`).
pub fn payload_listing(bitness: u32, code: &[u8], ip: u64) -> (r: Vec<String>)
    requires
        bitness == 16 || bitness == 32 || bitness == 64,
    ensures
        r@.map_values(|s: String| s@) == listing_lines(decoded_instructions(bitness, code@, ip)),
{
    let instrs = decode_instructions(bitness, code, ip);
    format_listing(&instrs)
}

/// The identifiers of the rules in the YARA source `rules` that match
/// `data`, in `yara_x`'s order; `None` when the source does not compile
/// (includes being turned off) or the scan fails.
pub uninterp spec fn yara_rule_matches(rules: Seq<u8>, data: Seq<u8>) -> Option<Seq<Seq<char>>>;

/// Compiles `rules` with `yara_x::Compiler` (`enable_includes(false)`,
/// `add_source`, then `build`) and scans `data` with a `yara_x::Scanner`,
/// listing the identifiers of the matching rules. Includes are turned off so
/// that the compiler reads no file: a source with an `include` directive
/// does not compile, and the result depends on the source and the bytes
/// alone.
///
/// Trusted: the result is what `yara_x` reports for this source and these
/// bytes; nothing more is claimed of it.
#[verifier::external_body]
fn yara_scan(rules: &[u8], data: &[u8]) -> (r: Option<Vec<String>>)
    ensures
        match r {
            Some(v) => yara_rule_matches(rules@, data@) == Some(v@.map_values(|s: String| s@)),
            None => yara_rule_matches(rules@, data@) is None,
        },
{
    let mut compiler = yara_x::Compiler::new();
    compiler.enable_includes(false);
    compiler.add_source(rules).ok()?;
    let compiled = compiler.build();
    let mut scanner = yara_x::Scanner::new(&compiled);
    let results = scanner.scan(data).ok()?;
    let mut out = Vec::new();
    for rule in results.matching_rules() {
        out.push(rule.identifier().to_string());
    }
    Some(out)
}

/// The YARA rules that match a payload. Without rules nothing matches;
/// with a source, the matches are those of `yara_rule_matches`.
pub fn scan_payload(rules: Option<&[u8]>, payload: &[u8]) -> (r: Option<Vec<String>>)
    ensures
        rules is None ==> (r matches Some(v) && v@.len() == 0),
        rules matches Some(src) ==> match r {
            Some(v) => yara_rule_matches(src@, payload@) == Some(v@.map_values(|s: String| s@)),
            None => yara_rule_matches(src@, payload@) is None,
        },
{
    match rules {
        Some(src) => yara_scan(src, payload),
        None => Some(Vec::new()),
    }
}

/// Once finished, the unpacker stays finished and asks for nothing more.
pub proof fn lemma_unpack_finished_is_final(event: UnpackEvent)
    ensures
        unpack_transition(UnpackState::Finished, event) == (UnpackState::Finished, UnpackAction::Stop),
{
}

/// A call that does not request read-write-execute memory sends the
/// unpacker back to watching `VirtualProtect` with the same watchpoint.
pub proof fn lemma_unpack_skips_other_protections(watch: MemoryWatchpointData, args: [u32; 4])
    requires
        args@[2] != PAGE_EXECUTE_READWRITE,
    ensures
        unpack_transition(UnpackState::ReadingArguments { watch }, UnpackEvent::Arguments(args))
            == (UnpackState::WatchingVirtualProtect { watch }, UnpackAction::ReplayForward),
{
}

/// The payload watchpoint replaces the `VirtualProtect` one, and it watches
/// execution of the first argument.
pub proof fn lemma_unpack_rewatches_payload(watch: MemoryWatchpointData, args: [u32; 4])
    requires
        args@[2] == PAGE_EXECUTE_READWRITE,
    ensures
        unpack_transition(UnpackState::ReadingArguments { watch }, UnpackEvent::Arguments(args))
            == (UnpackState::WatchingPayload { size: args@[1] },
                UnpackAction::Rewatch { remove: watch, add: execution_watch(args@[0] as u64) }),
{
}

/// While watching `VirtualProtect`, only a stop on the watchpoint is a call
/// to inspect: it leads to reading the call's arguments, with the same
/// watchpoint; a stop for any other reason (the end of the trace, a
/// position, an exception, ...) ends the unpacker.
pub proof fn lemma_unpack_stops_unless_watchpoint_hit(watch: MemoryWatchpointData, reason: EventType)
    ensures
        reason == EventType::MemoryWatchpoint ==> unpack_transition(
            UnpackState::WatchingVirtualProtect { watch },
            UnpackEvent::Stopped(reason),
        ) == (UnpackState::ReadingArguments { watch }, UnpackAction::ReadArguments),
        reason != EventType::MemoryWatchpoint ==> unpack_transition(
            UnpackState::WatchingVirtualProtect { watch },
            UnpackEvent::Stopped(reason),
        ) == (UnpackState::Finished, UnpackAction::Stop),
{
}

/// Arguments are read only right after a stop on a memory watchpoint; the
/// payload is analysed only once it has been reached, and then the unpacker
/// is done.
pub proof fn lemma_unpack_actions_follow_their_events(state: UnpackState, event: UnpackEvent)
    ensures
        unpack_transition(state, event).1 == UnpackAction::ReadArguments ==> event == UnpackEvent::Stopped(
            EventType::MemoryWatchpoint,
        ),
        unpack_transition(state, event).1 is AnalysePayload ==> (event is PayloadReached
            && state is WatchingPayload && unpack_transition(state, event).0 == UnpackState::Finished),
        unpack_transition(state, event).1 is Rewatch ==> (state is ReadingArguments && event is Arguments),
{
}

/// An execution watchpoint covers exactly one byte at its address, with the
/// execute bit of the access mask; the protection the unpacker looks for is
/// `PAGE_EXECUTE_READWRITE` (0x40).
pub proof fn lemma_execution_watch_is_execute_of_one_byte(address: u64)
    ensures
        execution_watch(address).address == address,
        execution_watch(address).size == 1,
        execution_watch(address).access_mask == crate::events::access_bit(crate::events::DataAccessType::Execute),
        EXECUTE_ACCESS == crate::events::access_bit(crate::events::DataAccessType::Execute),
        PAGE_EXECUTE_READWRITE == 0x40,
{
}

/// A payload dump is named `Payload-`, the sequence in hexadecimal, `_`,
/// the step count in hexadecimal, then `.dmp`; both numbers read back.
pub proof fn lemma_payload_file_name_reads_back(p: ReplayPosition)
    ensures
        exists|k: int|
            8 <= k && k + 5 <= payload_file_name_text(p).len() && payload_file_name_text(p)[k] == '_'
                && hex_value(#[trigger] payload_file_name_text(p).subrange(8, k)) == p.sequence && hex_value(
                payload_file_name_text(p).subrange(k + 1, payload_file_name_text(p).len() - 4),
            ) == p.steps,
        payload_file_name_text(p).take(8) == "Payload-"@,
        payload_file_name_text(p).skip(payload_file_name_text(p).len() - 4) == ".dmp"@,
{
    reveal_strlit("Payload-");
    reveal_strlit(".dmp");
    lemma_hex_text_reads_back(p.sequence as nat);
    lemma_hex_text_reads_back(p.steps as nat);
    let t = payload_file_name_text(p);
    let k = 8 + hex_text(p.sequence as nat).len() as int;
    assert(t.subrange(8, k) =~= hex_text(p.sequence as nat));
    assert(t.subrange(k + 1, t.len() - 4) =~= hex_text(p.steps as nat));
    assert(t[k] == '_');
    assert(t.take(8) =~= "Payload-"@);
    assert(t.skip(t.len() - 4) =~= ".dmp"@);
}

/// A listing line starts with `0x` and the address in at least eight
/// hexadecimal digits that read back as the address, then a space and the
/// instruction's text.
pub proof fn lemma_listing_line_reads_back(ip: u64, text: Seq<char>)
    ensures
        exists|k: int|
            10 <= k < listing_line(ip, text).len() && listing_line(ip, text)[k] == ' ' && hex_value(
                #[trigger] listing_line(ip, text).subrange(2, k),
            ) == ip && listing_line(ip, text).skip(k + 1) == text,
        listing_line(ip, text).take(2) == "0x"@,
{
    reveal_strlit("0x");
    let t = listing_line(ip, text);
    let digits = if ip < 0x1_0000_0000 { hex_text_padded(ip as nat, 8) } else { hex_text(ip as nat) };
    assert(vstd::arithmetic::power::pow(16, 8) == 0x1_0000_0000) by {
        reveal_with_fuel(vstd::arithmetic::power::pow, 9);
    }
    if ip < 0x1_0000_0000 {
        lemma_hex_text_padded_reads_back(ip as nat, 8);
    } else {
        lemma_hex_text_reads_back(ip as nat);
        assert(hex_text(ip as nat).len() >= 8) by {
            lemma_hex_text_len_at_least(ip as nat, 8);
        }
    }
    let k = 2 + digits.len() as int;
    assert(t.subrange(2, k) =~= digits);
    assert(t.skip(k + 1) =~= text);
    assert(t[k] == ' ');
    assert(t.take(2) =~= "0x"@);
}

proof fn lemma_hex_text_len_at_least(n: nat, w: nat)
    requires
        n >= vstd::arithmetic::power::pow(16, w),
    ensures
        hex_text(n).len() >= w + 1,
    decreases w,
{
    if w > 0 {
        let p = vstd::arithmetic::power::pow(16, (w - 1) as nat);
        vstd::arithmetic::power::lemma_pow_positive(16, (w - 1) as nat);
        assert(vstd::arithmetic::power::pow(16, w) == 16 * p) by {
            vstd::arithmetic::power::lemma_pow_adds(16, 1, (w - 1) as nat);
            vstd::arithmetic::power::lemma_pow1(16);
        }
        assert(n / 16 >= p) by (nonlinear_arith)
            requires
                n >= 16 * p,
        ;
        assert(n >= 16);
        lemma_hex_text_len_at_least(n / 16, (w - 1) as nat);
        assert(hex_text(n).drop_last() =~= hex_text(n / 16));
    }
}

} // verus!
