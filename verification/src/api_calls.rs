//! Decisions of the API-call tracer: it indexes the exports of the common
//! Win32 libraries a trace loads, watches each entry point, and reports
//! every call with its first four arguments.
//!
//! Every SDK interaction (replaying, reading memory and registers) and the
//! upload of the reports are done by the caller.
use vstd::prelude::*;

use std::collections::HashMap;

use crate::context::RegisterContext;
use crate::error::Error;
use crate::pe::{export_entry_view, export_span_fits, export_span_overflows, named_exports, pe_named_exports, ExportEntry, PeExport};
use crate::position::{position_text, ReplayPosition};
use crate::replay::{MemoryRequest, MemoryWatchpointData, ReplayCursor};
use crate::text::{chars_of, hex_text, hex_value, lemma_hex_text_reads_back, push_hex, push_str, str_views};
use crate::unpack::{execution_watch, execution_watchpoint, le_u32, le_u32_value, lowercase, to_lowercase};

verus! {

broadcast use vstd::std_specs::hash::group_hash_axioms;

/// The index the reports go to.
pub const ES_INDEX: &'static str = "win32-api-calls";

/// How many reports are sent together.
pub const BULK_DOCS_PER_FLUSH: usize = 500;

/// The libraries whose exports are traced, by file name.
pub open spec fn tracked_modules() -> Seq<Seq<char>> {
    seq![
        "kernel32.dll"@, "kernelbase.dll"@, "ntdll.dll"@, "advapi32.dll"@,
        "user32.dll"@, "ws2_32.dll"@, "wininet.dll"@, "shell32.dll"@,
    ]
}

/// A traced entry point: the library and the function.
#[derive(Clone, Debug)]
pub struct ApiSymbol {
    pub module: String,
    pub function: String,
}

fn same_chars(a: &Vec<char>, b: &Vec<char>) -> (r: bool)
    ensures
        r == (a@ == b@),
{
    if a.len() != b.len() {
        return false;
    }
    let n = a.len();
    let mut i: usize = 0;
    while i < n
        invariant
            n == a@.len(),
            n == b@.len(),
            i <= n,
            forall|j: int| 0 <= j < i ==> a@[j] == b@[j],
        decreases n - i,
    {
        if a[i] != b[i] {
            return false;
        }
        i = i + 1;
    }
    assert(a@ =~= b@);
    true
}

/// Whether a library (by file name) is traced.
pub fn is_tracked_module(basename: &str) -> (r: bool)
    ensures
        r == tracked_modules().contains(basename@),
{
    let names: [&str; 8] = [
        "kernel32.dll", "kernelbase.dll", "ntdll.dll", "advapi32.dll",
        "user32.dll", "ws2_32.dll", "wininet.dll", "shell32.dll",
    ];
    assert(str_views(names@) =~= tracked_modules());
    let target = chars_of(basename);
    let mut i: usize = 0;
    while i < 8
        invariant
            i <= 8,
            target@ == basename@,
            str_views(names@) == tracked_modules(),
            forall|j: int| 0 <= j < i ==> tracked_modules()[j] != basename@,
        decreases 8 - i,
    {
        let candidate = chars_of(names[i]);
        if same_chars(&candidate, &target) {
            assert(tracked_modules()[i as int] == basename@);
            return true;
        }
        i = i + 1;
    }
    false
}

/// A path separator: a backslash, or also a slash outside verbatim
/// (`\\?\`) paths.
pub open spec fn is_separator(c: char, verbatim: bool) -> bool {
    c == '\\' || (!verbatim && c == '/')
}

/// Either separator.
pub open spec fn is_any_separator(c: char) -> bool {
    c == '\\' || c == '/'
}

/// An ASCII letter (a drive letter).
pub open spec fn is_ascii_letter(c: char) -> bool {
    ('a' <= c && c <= 'z') || ('A' <= c && c <= 'Z')
}

/// The index of the first separator at or after `from`, or the length of
/// `s` when there is none.
pub open spec fn first_separator(s: Seq<char>, from: int, verbatim: bool) -> int
    decreases s.len() - from,
{
    if from >= s.len() {
        s.len() as int
    } else if is_separator(s[from], verbatim) {
        from
    } else {
        first_separator(s, from + 1, verbatim)
    }
}

/// The length of a Windows path's prefix, and whether it is a verbatim one:
/// `\\?\UNC\server\share`, `\\?\C:`, `\\?\name` (verbatim), `\\.\device`,
/// `\\server\share` (both parts non-empty), a drive `C:`, or none. Within
/// the first eight characters a slash stands for a backslash, except in the
/// four characters that mark a verbatim path.
pub open spec fn path_prefix(s: Seq<char>) -> (int, bool) {
    if s.len() >= 2 && is_any_separator(s[0]) && is_any_separator(s[1]) {
        if s.len() >= 4 && s[0] == '\\' && s[1] == '\\' && s[2] == '?' && s[3] == '\\' {
            if s.len() >= 8 && s[4] == 'U' && s[5] == 'N' && s[6] == 'C' && is_any_separator(s[7]) {
                let e1 = first_separator(s, 8, true);
                if e1 < s.len() && first_separator(s, e1 + 1, true) > e1 + 1 {
                    (first_separator(s, e1 + 1, true), true)
                } else {
                    (e1, true)
                }
            } else if s.len() >= 7 && is_ascii_letter(s[4]) && s[5] == ':' && s[6] == '\\' {
                (6, true)
            } else {
                (first_separator(s, 4, true), true)
            }
        } else if s.len() >= 4 && s[2] == '.' && is_any_separator(s[3]) {
            (first_separator(s, 4, false), false)
        } else {
            let e1 = first_separator(s, 2, false);
            if e1 > 2 && e1 < s.len() && first_separator(s, e1 + 1, false) > e1 + 1 {
                (first_separator(s, e1 + 1, false), false)
            } else {
                (0, false)
            }
        }
    } else if s.len() >= 2 && is_ascii_letter(s[0]) && s[1] == ':' {
        (2, false)
    } else {
        (0, false)
    }
}

/// The pieces of `s` between separators.
pub open spec fn split_path(s: Seq<char>, verbatim: bool) -> Seq<Seq<char>>
    decreases s.len(),
{
    if s.len() == 0 {
        seq![Seq::empty()]
    } else {
        let init = split_path(s.drop_last(), verbatim);
        if is_separator(s.last(), verbatim) {
            init.push(Seq::empty())
        } else {
            init.update(init.len() - 1, init.last().push(s.last()))
        }
    }
}

/// A piece that is a component: not empty, and not `.` outside verbatim
/// paths (where `.` is dropped).
pub open spec fn is_named_piece(p: Seq<char>, verbatim: bool) -> bool {
    p.len() > 0 && (verbatim || p != seq!['.'])
}

/// The last piece that is a component.
pub open spec fn last_named_piece(pieces: Seq<Seq<char>>, verbatim: bool) -> Option<Seq<char>>
    decreases pieces.len(),
{
    if pieces.len() == 0 {
        None
    } else if is_named_piece(pieces.last(), verbatim) {
        Some(pieces.last())
    } else {
        last_named_piece(pieces.drop_last(), verbatim)
    }
}

/// The file name of a Windows path: its last component after the prefix,
/// when that is a name (not `..`, nor `.` in a verbatim path).
pub open spec fn file_name(s: Seq<char>) -> Option<Seq<char>> {
    let (k, verbatim) = path_prefix(s);
    match last_named_piece(split_path(s.skip(k), verbatim), verbatim) {
        Some(p) => if p == seq!['.', '.'] || (verbatim && p == seq!['.']) {
            None
        } else {
            Some(p)
        },
        None => None,
    }
}

/// The name a library is indexed under: the file name of its path, or the
/// whole path when it has none.
pub open spec fn basename_text(full: Seq<char>) -> Seq<char> {
    match file_name(full) {
        Some(p) => p,
        None => full,
    }
}

proof fn lemma_last_named_piece_push(pieces: Seq<Seq<char>>, p: Seq<char>, verbatim: bool)
    ensures
        last_named_piece(pieces.push(p), verbatim) == if is_named_piece(p, verbatim) {
            Some(p)
        } else {
            last_named_piece(pieces, verbatim)
        },
{
    assert(pieces.push(p).drop_last() =~= pieces);
}

proof fn lemma_first_separator_bounds(s: Seq<char>, from: int, verbatim: bool)
    requires
        0 <= from <= s.len(),
    ensures
        from <= first_separator(s, from, verbatim) <= s.len(),
    decreases s.len() - from,
{
    if from < s.len() && !is_separator(s[from], verbatim) {
        lemma_first_separator_bounds(s, from + 1, verbatim);
    }
}

fn first_separator_from(cs: &Vec<char>, from: usize, verbatim: bool) -> (r: usize)
    requires
        from <= cs@.len(),
    ensures
        r == first_separator(cs@, from as int, verbatim),
        from <= r <= cs@.len(),
{
    let n = cs.len();
    let mut i = from;
    while i < n && !(cs[i] == '\\' || (!verbatim && cs[i] == '/'))
        invariant
            n == cs@.len(),
            from <= i <= n,
            first_separator(cs@, from as int, verbatim) == first_separator(cs@, i as int, verbatim),
        decreases n - i,
    {
        i = i + 1;
    }
    i
}

fn is_sep_char(c: char) -> (r: bool)
    ensures
        r == is_any_separator(c),
{
    c == '\\' || c == '/'
}

fn is_letter_char(c: char) -> (r: bool)
    ensures
        r == is_ascii_letter(c),
{
    ('a' <= c && c <= 'z') || ('A' <= c && c <= 'Z')
}

fn path_prefix_of(cs: &Vec<char>) -> (r: (usize, bool))
    ensures
        r.0 as int == path_prefix(cs@).0,
        r.1 == path_prefix(cs@).1,
        r.0 <= cs@.len(),
{
    let n = cs.len();
    if n >= 2 && is_sep_char(cs[0]) && is_sep_char(cs[1]) {
        if n >= 4 && cs[0] == '\\' && cs[1] == '\\' && cs[2] == '?' && cs[3] == '\\' {
            if n >= 8 && cs[4] == 'U' && cs[5] == 'N' && cs[6] == 'C' && is_sep_char(cs[7]) {
                let e1 = first_separator_from(cs, 8, true);
                if e1 < n {
                    let e2 = first_separator_from(cs, e1 + 1, true);
                    if e2 > e1 + 1 {
                        return (e2, true);
                    }
                }
                (e1, true)
            } else if n >= 7 && is_letter_char(cs[4]) && cs[5] == ':' && cs[6] == '\\' {
                (6, true)
            } else {
                (first_separator_from(cs, 4, true), true)
            }
        } else if n >= 4 && cs[2] == '.' && is_sep_char(cs[3]) {
            (first_separator_from(cs, 4, false), false)
        } else {
            let e1 = first_separator_from(cs, 2, false);
            if e1 > 2 && e1 < n {
                let e2 = first_separator_from(cs, e1 + 1, false);
                if e2 > e1 + 1 {
                    return (e2, false);
                }
            }
            (0, false)
        }
    } else if n >= 2 && is_letter_char(cs[0]) && cs[1] == ':' {
        (2, false)
    } else {
        (0, false)
    }
}

fn is_dot_dot(p: &Vec<char>) -> (r: bool)
    ensures
        r == (p@ == seq!['.', '.']),
{
    let r = p.len() == 2 && p[0] == '.' && p[1] == '.';
    if r {
        assert(p@ =~= seq!['.', '.']);
    }
    r
}

fn is_dot(p: &Vec<char>) -> (r: bool)
    ensures
        r == (p@ == seq!['.']),
{
    let r = p.len() == 1 && p[0] == '.';
    if r {
        assert(p@ =~= seq!['.']);
    }
    r
}

/// The name a library is indexed under (see `basename_text`).
pub fn module_basename(full: &str) -> (r: String)
    ensures
        r@ == basename_text(full@),
{
    let cs = chars_of(full);
    let n = cs.len();
    let (start, verbatim) = path_prefix_of(&cs);
    let ghost t = cs@.skip(start as int);
    let mut cur: Vec<char> = Vec::new();
    let mut best: Option<Vec<char>> = None;
    let mut i: usize = start;
    assert(t.take(0) =~= Seq::<char>::empty());
    assert(split_path(t.take(0), verbatim) =~= seq![Seq::<char>::empty()]);
    assert(split_path(t.take(0), verbatim).drop_last() =~= Seq::<Seq<char>>::empty());
    while i < n
        invariant
            n == cs@.len(),
            start <= i <= n,
            t == cs@.skip(start as int),
            split_path(t.take(i - start), verbatim).len() >= 1,
            split_path(t.take(i - start), verbatim).last() == cur@,
            match best {
                Some(b) => last_named_piece(split_path(t.take(i - start), verbatim).drop_last(), verbatim) == Some(b@),
                None => last_named_piece(split_path(t.take(i - start), verbatim).drop_last(), verbatim) is None,
            },
        decreases n - i,
    {
        let ghost k = i - start;
        let ghost before = split_path(t.take(k), verbatim);
        assert(t.take(k + 1).drop_last() =~= t.take(k));
        assert(t.take(k + 1).last() == cs@[i as int]);
        let c = cs[i];
        if c == '\\' || (!verbatim && c == '/') {
            let ghost after = split_path(t.take(k + 1), verbatim);
            assert(after == before.push(Seq::<char>::empty()));
            assert(after.drop_last() =~= before);
            assert(before =~= before.drop_last().push(before.last()));
            proof {
                lemma_last_named_piece_push(before.drop_last(), before.last(), verbatim);
            }
            if cur.len() > 0 && (verbatim || !is_dot(&cur)) {
                best = Some(cur);
            }
            cur = Vec::new();
        } else {
            let ghost after = split_path(t.take(k + 1), verbatim);
            assert(after == before.update(before.len() - 1, before.last().push(c)));
            assert(after.drop_last() =~= before.drop_last());
            cur.push(c);
        }
        i = i + 1;
    }
    let ghost fin = split_path(t.take(n - start), verbatim);
    assert(t.take(n - start) =~= t);
    assert(fin =~= fin.drop_last().push(fin.last()));
    proof {
        lemma_last_named_piece_push(fin.drop_last(), fin.last(), verbatim);
    }
    if cur.len() > 0 && (verbatim || !is_dot(&cur)) {
        best = Some(cur);
    }
    let chosen = match best {
        Some(b) => if is_dot_dot(&b) || (verbatim && is_dot(&b)) {
            cs
        } else {
            b
        },
        None => cs,
    };
    let mut out = String::new();
    let m = chosen.len();
    let mut j: usize = 0;
    while j < m
        invariant
            m == chosen@.len(),
            j <= m,
            out@ == chosen@.take(j as int),
        decreases m - j,
    {
        crate::text::push_char(&mut out, chosen[j]);
        assert(out@ =~= chosen@.take(j + 1));
        j = j + 1;
    }
    assert(chosen@.take(m as int) =~= chosen@);
    out
}

/// The name a loaded library is traced under, when it is traced: the file
/// name of its lower-cased path, if that is one of `tracked_modules`.
pub open spec fn traced_name(name: Seq<char>) -> Option<Seq<char>> {
    let base = basename_text(lowercase(name));
    if tracked_modules().contains(base) {
        Some(base)
    } else {
        None
    }
}

/// The name a loaded library is traced under (see `traced_name`); `None`
/// when it is not traced.
pub fn tracked_basename(name: &str) -> (r: Option<String>)
    ensures
        match r {
            Some(b) => traced_name(name@) == Some(b@),
            None => traced_name(name@) is None,
        },
{
    let lower = to_lowercase(name);
    let base = module_basename(lower.as_str());
    if is_tracked_module(base.as_str()) {
        Some(base)
    } else {
        None
    }
}

/// The traced entry points of a library, in table order: each readable,
/// non-empty name that resolves to a symbol, at the library's base plus the
/// symbol's relative address.
pub open spec fn symbol_entries(base: u64, entries: Seq<(Option<Seq<char>>, Option<PeExport>)>) -> Seq<(u64, Seq<char>)>
    decreases entries.len(),
{
    if entries.len() == 0 {
        Seq::empty()
    } else {
        let init = symbol_entries(base, entries.drop_last());
        match entries.last() {
            (Some(name), Some(PeExport::Symbol(rva))) =>
                if name.len() > 0 {
                    init.push(((base + rva) as u64, name))
                } else {
                    init
                },
            _ => init,
        }
    }
}

/// An entry whose address the tracer computes (a non-empty name resolving
/// to a symbol) has an address that fits in 64 bits.
pub open spec fn entry_fits(base: u64, e: (Option<Seq<char>>, Option<PeExport>)) -> bool {
    match e {
        (Some(name), Some(PeExport::Symbol(rva))) => name.len() > 0 ==> base + rva <= u64::MAX,
        _ => true,
    }
}

/// Every address the tracer computes for these entries fits in 64 bits.
pub open spec fn symbols_fit(base: u64, entries: Seq<(Option<Seq<char>>, Option<PeExport>)>) -> bool {
    forall|i: int| 0 <= i < entries.len() ==> entry_fits(base, #[trigger] entries[i])
}

/// The entry points of a library as address and function name (see
/// `symbol_entries`).
pub fn exported_symbols(base: u64, entries: &Vec<ExportEntry>) -> (r: Vec<(u64, String)>)
    requires
        symbols_fit(base, entries@.map_values(|e: ExportEntry| export_entry_view(e))),
    ensures
        r@.map_values(|e: (u64, String)| (e.0, e.1@)) == symbol_entries(base, entries@.map_values(|e: ExportEntry| export_entry_view(e))),
{
    let ghost view = entries@.map_values(|e: ExportEntry| export_entry_view(e));
    let n = entries.len();
    let mut out: Vec<(u64, String)> = Vec::new();
    let mut i: usize = 0;
    assert(view.take(0) =~= Seq::<(Option<Seq<char>>, Option<PeExport>)>::empty());
    assert(out@.map_values(|e: (u64, String)| (e.0, e.1@)) =~= Seq::<(u64, Seq<char>)>::empty());
    while i < n
        invariant
            n == entries@.len(),
            view == entries@.map_values(|e: ExportEntry| export_entry_view(e)),
            symbols_fit(base, view),
            i <= n,
            out@.map_values(|e: (u64, String)| (e.0, e.1@)) == symbol_entries(base, view.take(i as int)),
        decreases n - i,
    {
        let ghost before = out@;
        assert(view.take(i + 1).drop_last() =~= view.take(i as int));
        assert(view.take(i + 1).last() == export_entry_view(entries@[i as int]));
        assert(entry_fits(base, view[i as int]));
        let entry = &entries[i];
        match (&entry.name, &entry.export) {
            (Some(name), Some(PeExport::Symbol(rva))) => {
                if !name.as_str().is_empty() {
                    out.push((base + *rva as u64, name.clone()));
                    assert(out@.map_values(|e: (u64, String)| (e.0, e.1@))
                        =~= before.map_values(|e: (u64, String)| (e.0, e.1@)).push(((base + *rva) as u64, name@)));
                }
            },
            _ => {},
        }
        i = i + 1;
    }
    assert(view.take(n as int) =~= view);
    out
}

/// Whether every address the tracer computes for these entries fits in 64
/// bits (see `symbols_fit`).
pub fn exported_symbols_fit(base: u64, entries: &Vec<ExportEntry>) -> (r: bool)
    ensures
        r == symbols_fit(base, entries@.map_values(|e: ExportEntry| export_entry_view(e))),
{
    let ghost view = entries@.map_values(|e: ExportEntry| export_entry_view(e));
    let n = entries.len();
    let mut i: usize = 0;
    while i < n
        invariant
            n == entries@.len(),
            view == entries@.map_values(|e: ExportEntry| export_entry_view(e)),
            i <= n,
            forall|j: int| 0 <= j < i ==> entry_fits(base, #[trigger] view[j]),
        decreases n - i,
    {
        assert(view[i as int] == export_entry_view(entries@[i as int]));
        let entry = &entries[i];
        match (&entry.name, &entry.export) {
            (Some(name), Some(PeExport::Symbol(rva))) => {
                if !name.as_str().is_empty() && base > u64::MAX - *rva as u64 {
                    assert(!entry_fits(base, view[i as int]));
                    return false;
                }
            },
            _ => {},
        }
        i = i + 1;
    }
    true
}

/// Why the entry points of a library image could not be listed.
#[derive(Clone, Copy, Debug, PartialEq, Eq, Structural)]
pub enum SymbolsError {
    /// The image has no readable export table.
    NoExportTable,
    /// The image's export directory ends beyond 32 bits.
    MalformedExportDirectory,
    /// The address of an entry point does not fit in 64 bits.
    AddressOverflow,
}

/// The entry points of a library image mapped at `base` (see
/// `symbol_entries`); an error when the image's export directory ends beyond
/// 32 bits, when it has no readable export table, or when an entry point's
/// address would not fit in 64 bits.
pub fn image_symbols(base: u64, image: &[u8]) -> (r: Result<Vec<(u64, String)>, SymbolsError>)
    ensures
        r == Err::<Vec<(u64, String)>, SymbolsError>(SymbolsError::MalformedExportDirectory)
            <==> export_span_overflows(image@),
        !export_span_overflows(image@) ==> {
            &&& r == Err::<Vec<(u64, String)>, SymbolsError>(SymbolsError::NoExportTable)
                <==> pe_named_exports(image@) is None
            &&& r == Err::<Vec<(u64, String)>, SymbolsError>(SymbolsError::AddressOverflow)
                <==> (pe_named_exports(image@) matches Some(entries) && !symbols_fit(base, entries))
            &&& r matches Ok(v) ==> pe_named_exports(image@) matches Some(entries)
                && v@.map_values(|e: (u64, String)| (e.0, e.1@)) == symbol_entries(base, entries)
        },
{
    if !export_span_fits(image) {
        return Err(SymbolsError::MalformedExportDirectory);
    }
    match named_exports(image) {
        Some(entries) => {
            if exported_symbols_fit(base, &entries) {
                Ok(exported_symbols(base, &entries))
            } else {
                Err(SymbolsError::AddressOverflow)
            }
        },
        None => Err(SymbolsError::NoExportTable),
    }
}

/// Whether the replay should go on after a stop: only a watchpoint stop
/// is an API call.
pub fn is_api_call_stop(reason: crate::events::EventType) -> (r: bool)
    ensures
        r == (reason == crate::events::EventType::MemoryWatchpoint),
{
    reason == crate::events::EventType::MemoryWatchpoint
}

/// Whether the pending reports should be sent: each report takes two
/// entries (an action line and the document).
pub fn should_flush(buffered: usize) -> (r: bool)
    ensures
        r == (buffered >= 2 * BULK_DOCS_PER_FLUSH),
{
    buffered >= BULK_DOCS_PER_FLUSH * 2
}

/// Where the first four arguments of a call are found.
#[derive(Clone, Copy, Debug)]
pub enum FirstArguments {
    /// In registers (x64: rcx, rdx, r8, r9; ARM64: x0 to x3).
    Registers([u64; 4]),
    /// On the stack (x86): four 4-byte reads above the return address.
    Stack([MemoryRequest; 4]),
}

/// Where the first four arguments of the call are, by architecture.
pub fn read_first_four_args(ctx: &RegisterContext) -> (r: FirstArguments)
    requires
        ctx matches RegisterContext::X86(c) ==> c.esp + 0x10 <= u32::MAX,
    ensures
        ctx matches RegisterContext::X64(c) ==> r matches FirstArguments::Registers(a)
            && a@ == seq![c.rcx, c.rdx, c.r8, c.r9],
        ctx matches RegisterContext::ARM64(c) ==> r matches FirstArguments::Registers(a)
            && a@ == seq![c.x[0], c.x[1], c.x[2], c.x[3]],
        ctx matches RegisterContext::X86(c) ==> r matches FirstArguments::Stack(q)
            && (forall|i: int| 0 <= i < 4 ==> (#[trigger] q@[i]).size == 4 && q@[i].address == c.esp + 4 * (i + 1)),
{
    match ctx {
        RegisterContext::X64(c) => {
            let a = [c.rcx, c.rdx, c.r8, c.r9];
            assert(a@ =~= seq![c.rcx, c.rdx, c.r8, c.r9]);
            FirstArguments::Registers(a)
        },
        RegisterContext::ARM64(c) => {
            let a = [c.x[0], c.x[1], c.x[2], c.x[3]];
            assert(a@ =~= seq![c.x[0], c.x[1], c.x[2], c.x[3]]);
            FirstArguments::Registers(a)
        },
        RegisterContext::X86(c) => {
            let q = [
                MemoryRequest { address: (c.esp + 4) as u64, size: 4 },
                MemoryRequest { address: (c.esp + 8) as u64, size: 4 },
                MemoryRequest { address: (c.esp + 0xc) as u64, size: 4 },
                MemoryRequest { address: (c.esp + 0x10) as u64, size: 4 },
            ];
            FirstArguments::Stack(q)
        },
    }
}

/// A stack argument from the bytes read for it: four little-endian bytes;
/// any other length is a conversion error.
pub fn stack_argument(bytes: &[u8]) -> (r: Result<u64, Error>)
    ensures
        r is Ok <==> bytes@.len() == 4,
        r matches Ok(v) ==> v == le_u32_value(bytes@),
        r matches Err(e) ==> e == Error::ConversionError,
{
    if bytes.len() != 4 {
        return Err(Error::ConversionError);
    }
    Ok(le_u32(bytes) as u64)
}

/// The `{:#x}` rendering of `n`: `0x` and lower-case hexadecimal digits.
pub open spec fn hex_prefixed(n: u64) -> Seq<char> {
    "0x"@ + hex_text(n as nat)
}

fn hex_prefixed_string(n: u64) -> (r: String)
    ensures
        r@ == hex_prefixed(n),
{
    let mut s = String::new();
    push_str(&mut s, "0x");
    push_hex(&mut s, n);
    s
}

/// What is reported of one API call (the time of the report is added when
/// it is sent).
#[derive(Clone, Debug)]
pub struct ApiCallReport {
    pub pid: u32,
    pub thread_id: u32,
    pub position: String,
    pub pc: String,
    pub module: String,
    pub function: String,
    pub args: Vec<String>,
}

/// The report of a stop at `pc`, when `pc` is an indexed entry point: the
/// process and thread, the position, the program counter and the four
/// arguments in `{:#x}` form, and the library and function names. `None`
/// when `pc` is not an indexed entry point.
pub fn api_call_report(
    api_map: &HashMap<u64, ApiSymbol>,
    pid: u32,
    thread_id: u32,
    position: &ReplayPosition,
    pc: u64,
    args: &[u64; 4],
) -> (r: Option<ApiCallReport>)
    ensures
        r is None <==> !api_map@.contains_key(pc),
        r matches Some(rep) ==> {
            &&& rep.pid == pid
            &&& rep.thread_id == thread_id
            &&& rep.position@ == position_text(*position)
            &&& rep.pc@ == hex_prefixed(pc)
            &&& rep.module@ == api_map@[pc].module@
            &&& rep.function@ == api_map@[pc].function@
            &&& rep.args@.map_values(|s: String| s@) == args@.map_values(|a: u64| hex_prefixed(a))
        },
{
    match api_map.get(&pc) {
        None => None,
        Some(sym) => {
            let mut rendered: Vec<String> = Vec::new();
            let mut i: usize = 0;
            while i < 4
                invariant
                    i <= 4,
                    rendered@.map_values(|s: String| s@) == args@.take(i as int).map_values(|a: u64| hex_prefixed(a)),
                decreases 4 - i,
            {
                let ghost before = rendered@;
                rendered.push(hex_prefixed_string(args[i]));
                assert(rendered@.map_values(|s: String| s@) =~= before.map_values(|s: String| s@).push(hex_prefixed(args@[i as int])));
                assert(args@.take(i + 1).map_values(|a: u64| hex_prefixed(a))
                    =~= args@.take(i as int).map_values(|a: u64| hex_prefixed(a)).push(hex_prefixed(args@[i as int])));
                i = i + 1;
            }
            assert(args@.take(4) =~= args@);
            Some(ApiCallReport {
                pid,
                thread_id,
                position: position.to_string(),
                pc: hex_prefixed_string(pc),
                module: sym.module.clone(),
                function: sym.function.clone(),
                args: rendered,
            })
        },
    }
}

/// The function name of the last symbol at address `a`, if any.
pub open spec fn last_name_at(symbols: Seq<(u64, String)>, a: u64) -> Option<Seq<char>>
    decreases symbols.len(),
{
    if symbols.len() == 0 {
        None
    } else if symbols.last().0 == a {
        Some(symbols.last().1@)
    } else {
        last_name_at(symbols.drop_last(), a)
    }
}

/// Adds the entry points of a library to the map, each under its address
/// with the library's name and its function name (a later entry for the
/// same address replaces an earlier one), and returns how many were added.
/// Addresses not among the entry points keep what they had.
pub fn index_module_exports(
    api_map: &mut HashMap<u64, ApiSymbol>,
    basename: &String,
    symbols: &Vec<(u64, String)>,
) -> (r: usize)
    ensures
        r == symbols@.len(),
        forall|a: u64| #[trigger] final(api_map)@.contains_key(a) <==> (old(api_map)@.contains_key(a)
            || exists|i: int| 0 <= i < symbols@.len() && symbols@[i].0 == a),
        forall|a: u64| #[trigger] last_name_at(symbols@, a) matches Some(name) ==> {
            &&& final(api_map)@.contains_key(a)
            &&& final(api_map)@[a].module@ == basename@
            &&& final(api_map)@[a].function@ == name
        },
        forall|a: u64| #[trigger] last_name_at(symbols@, a) is None && old(api_map)@.contains_key(a)
            ==> final(api_map)@[a] == old(api_map)@[a],
{
    let n = symbols.len();
    let mut i: usize = 0;
    assert(symbols@.take(0) =~= Seq::<(u64, String)>::empty());
    while i < n
        invariant
            n == symbols@.len(),
            i <= n,
            forall|a: u64| #[trigger] api_map@.contains_key(a) <==> (old(api_map)@.contains_key(a)
                || exists|j: int| 0 <= j < i && symbols@[j].0 == a),
            forall|a: u64| #[trigger] last_name_at(symbols@.take(i as int), a) matches Some(name) ==> {
                &&& api_map@.contains_key(a)
                &&& api_map@[a].module@ == basename@
                &&& api_map@[a].function@ == name
            },
            forall|a: u64| #[trigger] last_name_at(symbols@.take(i as int), a) is None && old(api_map)@.contains_key(a)
                ==> api_map@[a] == old(api_map)@[a],
        decreases n - i,
    {
        let ghost before = api_map@;
        let ghost prefix = symbols@.take(i as int);
        let ghost next = symbols@.take(i + 1);
        assert(next.drop_last() =~= prefix);
        assert(next.last() == symbols@[i as int]);
        let (address, function) = &symbols[i];
        api_map.insert(*address, ApiSymbol { module: basename.clone(), function: function.clone() });
        assert forall|a: u64| #[trigger] api_map@.contains_key(a) <==> (old(api_map)@.contains_key(a)
            || exists|j: int| 0 <= j < i + 1 && symbols@[j].0 == a) by {
            if a == *address {
                assert(symbols@[i as int].0 == a);
            }
        }
        assert forall|a: u64| #[trigger] last_name_at(next, a) is Some implies {
            &&& api_map@.contains_key(a)
            &&& api_map@[a].module@ == basename@
            &&& api_map@[a].function@ == last_name_at(next, a)->0
        } by {
            if a != *address {
                assert(last_name_at(next, a) == last_name_at(prefix, a));
            }
        }
        assert forall|a: u64| #[trigger] last_name_at(next, a) is None && old(api_map)@.contains_key(a)
            implies api_map@[a] == old(api_map)@[a] by {
            assert(a != *address);
            assert(last_name_at(next, a) == last_name_at(prefix, a));
        }
        i = i + 1;
    }
    assert(symbols@.take(n as int) =~= symbols@);
    n
}

/// Arms an execution watchpoint on every indexed entry point and returns
/// how many were new.
pub fn arm_api_watchpoints(cursor: &mut ReplayCursor, api_map: &HashMap<u64, ApiSymbol>) -> (r: usize)
    ensures
        forall|a: u64| #[trigger] api_map@.contains_key(a)
            ==> final(cursor).memory_watchpoints_spec().contains(execution_watch(a)),
        forall|w: MemoryWatchpointData| #[trigger] final(cursor).memory_watchpoints_spec().contains(w)
            ==> old(cursor).memory_watchpoints_spec().contains(w)
                || exists|a: u64| api_map@.contains_key(a) && w == execution_watch(a),
        r == final(cursor).memory_watchpoints_spec().len() - old(cursor).memory_watchpoints_spec().len(),
        final(cursor).position_spec() == old(cursor).position_spec(),
        final(cursor).flags_spec() == old(cursor).flags_spec(),
{
    let start = cursor.memory_watchpoint_count();
    let ghost keys = vstd::std_specs::iter::IteratorSpec::remaining(&vstd::std_specs::hash::spec_keys_iter(api_map));
    for address in iter: api_map.keys()
        invariant
            keys == vstd::std_specs::iter::IteratorSpec::remaining(&vstd::std_specs::hash::spec_keys_iter(api_map)),
            iter.seq() == keys,
            keys.unref().to_set() == api_map@.dom(),
            start == old(cursor).memory_watchpoints_spec().len(),
            old(cursor).memory_watchpoints_spec().len() <= cursor.memory_watchpoints_spec().len(),
            cursor.position_spec() == old(cursor).position_spec(),
            cursor.flags_spec() == old(cursor).flags_spec(),
            forall|j: int| 0 <= j < iter.index() ==> cursor.memory_watchpoints_spec().contains(execution_watch(*(#[trigger] keys[j]))),
            forall|w: MemoryWatchpointData| #[trigger] cursor.memory_watchpoints_spec().contains(w)
                ==> old(cursor).memory_watchpoints_spec().contains(w)
                    || exists|j: int| 0 <= j < iter.index() && w == execution_watch(*keys[j]),
    {
        let ghost k = iter.index();
        assert(*address == *keys[k]);
        let watch = execution_watchpoint(*address);
        let ghost before = cursor.memory_watchpoints_spec();
        let _ = cursor.add_memory_watchpoint(&watch);
        assert forall|j: int| 0 <= j < k + 1 implies cursor.memory_watchpoints_spec().contains(execution_watch(*(#[trigger] keys[j]))) by {
            crate::replay::lemma_add_watchpoint_effect(before, watch, execution_watch(*keys[j]));
        }
        assert forall|w: MemoryWatchpointData| #[trigger] cursor.memory_watchpoints_spec().contains(w) implies
            old(cursor).memory_watchpoints_spec().contains(w)
                || exists|j: int| 0 <= j < k + 1 && w == execution_watch(*keys[j]) by {
            crate::replay::lemma_add_watchpoint_effect(before, watch, w);
            if w == watch {
                assert(w == execution_watch(*keys[k]));
            }
        }
    }
    assert forall|a: u64| #[trigger] api_map@.contains_key(a)
        implies cursor.memory_watchpoints_spec().contains(execution_watch(a)) by {
        assert(keys.unref().to_set().contains(a));
        let j = choose|j: int| 0 <= j < keys.unref().len() && keys.unref()[j] == a;
        assert(*keys[j] == a);
    }
    assert forall|w: MemoryWatchpointData| #[trigger] cursor.memory_watchpoints_spec().contains(w) implies
        old(cursor).memory_watchpoints_spec().contains(w)
            || exists|a: u64| api_map@.contains_key(a) && w == execution_watch(a) by {
        if !old(cursor).memory_watchpoints_spec().contains(w) {
            let j = choose|j: int| 0 <= j < keys.len() && w == execution_watch(*keys[j]);
            assert(keys.unref()[j] == *keys[j]);
            assert(keys.unref().to_set().contains(*keys[j]));
        }
    }
    let end = cursor.memory_watchpoint_count();
    end - start
}

/// The traced libraries are exactly kernel32, kernelbase, ntdll, advapi32,
/// user32, ws2_32, wininet and shell32 (by lower-case file name).
pub proof fn lemma_tracked_module_names(name: Seq<char>)
    ensures
        tracked_modules().contains("kernel32.dll"@),
        tracked_modules().contains("kernelbase.dll"@),
        tracked_modules().contains("ntdll.dll"@),
        tracked_modules().contains("advapi32.dll"@),
        tracked_modules().contains("user32.dll"@),
        tracked_modules().contains("ws2_32.dll"@),
        tracked_modules().contains("wininet.dll"@),
        tracked_modules().contains("shell32.dll"@),
        tracked_modules().contains(name) <==> (name == "kernel32.dll"@ || name == "kernelbase.dll"@ || name == "ntdll.dll"@ || name == "advapi32.dll"@ || name == "user32.dll"@ || name == "ws2_32.dll"@ || name == "wininet.dll"@ || name == "shell32.dll"@),
{
    assert(tracked_modules()[0] == "kernel32.dll"@);
    assert(tracked_modules()[1] == "kernelbase.dll"@);
    assert(tracked_modules()[2] == "ntdll.dll"@);
    assert(tracked_modules()[3] == "advapi32.dll"@);
    assert(tracked_modules()[4] == "user32.dll"@);
    assert(tracked_modules()[5] == "ws2_32.dll"@);
    assert(tracked_modules()[6] == "wininet.dll"@);
    assert(tracked_modules()[7] == "shell32.dll"@);
    if tracked_modules().contains(name) {
        let k = choose|k: int| 0 <= k < tracked_modules().len() && tracked_modules()[k] == name;
        assert(0 <= k < 8);
    }
}

/// Reports are sent once a thousand entries are pending: five hundred
/// reports of two entries each.
pub proof fn lemma_flush_every_five_hundred_reports(buffered: usize)
    ensures
        BULK_DOCS_PER_FLUSH == 500,
        (buffered >= 2 * BULK_DOCS_PER_FLUSH) <==> buffered >= 1000,
{
}

/// The `{:#x}` text of a number is `0x` followed by hexadecimal digits that
/// read back as the number.
pub proof fn lemma_hex_prefixed_reads_back(n: u64)
    ensures
        hex_prefixed(n).take(2) == "0x"@,
        hex_value(hex_prefixed(n).skip(2)) == n,
{
    reveal_strlit("0x");
    lemma_hex_text_reads_back(n as nat);
    assert(hex_prefixed(n).take(2) =~= "0x"@);
    assert(hex_prefixed(n).skip(2) =~= hex_text(n as nat));
}

} // verus!
