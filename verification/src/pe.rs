//! Export lookups in PE images, through the `pelite` crate.
use vstd::prelude::*;

verus! {

/// What an export entry resolves to.
#[derive(Clone, Copy, Debug, PartialEq, Eq, Structural)]
pub enum PeExport {
    /// A symbol at this relative virtual address.
    Symbol(u32),
    /// An export forwarded to another library.
    Forward,
}

/// One entry of the export-by-name table: its name (as `pelite` displays
/// it) and what it resolves to, each absent when the table entry could not
/// be read.
#[derive(Clone, Debug)]
pub struct ExportEntry {
    pub name: Option<String>,
    pub export: Option<PeExport>,
}

/// The export named `name` in the PE image `image`, as `pelite` resolves it;
/// `None` when the image is not a readable PE image, has no export
/// directory, or does not export that name.
pub uninterp spec fn pe_export_by_name(image: Seq<u8>, name: Seq<char>) -> Option<PeExport>;

/// The export-by-name table of the PE image `image`, in table order, as
/// `pelite` reads it; `None` when the image is not a readable PE image or has
/// no readable export directory.
pub uninterp spec fn pe_named_exports(image: Seq<u8>) -> Option<Seq<(Option<Seq<char>>, Option<PeExport>)>>;

/// The plain-value view of an export entry.
pub open spec fn export_entry_view(e: ExportEntry) -> (Option<Seq<char>>, Option<PeExport>) {
    (
        match e.name {
            Some(n) => Some(n@),
            None => None,
        },
        e.export,
    )
}

/// The little-endian value of the four bytes of `b` at `off`.
pub open spec fn le_u32_at(b: Seq<u8>, off: int) -> nat {
    b[off] as nat + b[off + 1] as nat * 0x100 + b[off + 2] as nat * 0x10000 + b[off + 3] as nat * 0x1000000
}

/// Where the optional header of a PE image starts: after the four-byte
/// signature and the twenty-byte file header that `e_lfanew` (at `0x3c`)
/// points to.
pub open spec fn optional_header_offset(image: Seq<u8>) -> int {
    (le_u32_at(image, 0x3c) + 24) as int
}

/// Where, for the optional-header kind its magic names (`0x20b` for 64-bit
/// images, `0x10b` for 32-bit ones), the image holds its count of data
/// directories and the export directory's entry; `None` when the headers
/// are too short to say.
pub open spec fn export_entry_layout(image: Seq<u8>) -> Option<(int, int)> {
    if image.len() < 0x40 || optional_header_offset(image) + 2 > image.len() {
        None
    } else {
        let o = optional_header_offset(image);
        let magic = image[o] as nat + image[o + 1] as nat * 0x100;
        if magic == 0x20b {
            Some((o + 108, o + 112))
        } else if magic == 0x10b {
            Some((o + 92, o + 96))
        } else {
            None
        }
    }
}

/// The image declares an export directory whose end (its relative address
/// plus its size) does not fit in 32 bits.
pub open spec fn export_span_overflows(image: Seq<u8>) -> bool {
    match export_entry_layout(image) {
        Some((count, entry)) => entry + 8 <= image.len() && le_u32_at(image, count) >= 1
            && le_u32_at(image, entry) + le_u32_at(image, entry + 4) > u32::MAX,
        None => false,
    }
}

fn read_le_u32(image: &[u8], off: usize) -> (r: u32)
    requires
        off + 4 <= image@.len(),
    ensures
        r == le_u32_at(image@, off as int),
{
    let b0 = image[off] as u32;
    let b1 = image[off + 1] as u32;
    let b2 = image[off + 2] as u32;
    let b3 = image[off + 3] as u32;
    assert(b0 + b1 * 0x100 + b2 * 0x10000 + b3 * 0x1000000 <= u32::MAX) by (nonlinear_arith)
        requires
            b0 < 256 && b1 < 256 && b2 < 256 && b3 < 256,
    ;
    b0 + b1 * 0x100 + b2 * 0x10000 + b3 * 0x1000000
}

/// Whether the image's export directory, if it declares one, ends within
/// 32 bits (see `export_span_overflows`).
pub fn export_span_fits(image: &[u8]) -> (r: bool)
    ensures
        r == !export_span_overflows(image@),
{
    let len = image.len() as u64;
    if len < 0x40 {
        return true;
    }
    let o: u64 = read_le_u32(image, 0x3c) as u64 + 24;
    if o + 2 > len {
        return true;
    }
    let magic: u64 = image[o as usize] as u64 + image[(o + 1) as usize] as u64 * 0x100;
    let (count, entry): (u64, u64) = if magic == 0x20b {
        (o + 108, o + 112)
    } else if magic == 0x10b {
        (o + 92, o + 96)
    } else {
        return true;
    };
    if entry + 8 > len {
        return true;
    }
    if read_le_u32(image, count as usize) == 0 {
        return true;
    }
    let va = read_le_u32(image, entry as usize) as u64;
    let size = read_le_u32(image, (entry + 4) as usize) as u64;
    va + size <= 0xFFFF_FFFF
}

/// Looks an export up by name with `pelite`: `PeView::from_bytes`, then
/// `get_export_by_name` on the view. `pelite` refuses a buffer that does not
/// start on a four-byte boundary, so the bytes are first copied into one
/// that does (a `u32` buffer seen as bytes through `dataview::bytes_mut`);
/// the result then depends on the bytes alone.
///
/// `pelite` computes the end of the export directory (relative address plus
/// size) in 32 bits, which panics when it overflows; such images are left
/// out by the requirement.
///
/// Trusted: the result is what `pelite` resolves for these bytes and this
/// name; nothing more is claimed of it.
#[verifier::external_body]
pub(crate) fn export_by_name(image: &[u8], name: &str) -> (r: Option<PeExport>)
    requires
        !export_span_overflows(image@),
    ensures
        r == pe_export_by_name(image@, name@),
{
    let mut words = vec![0u32; image.len()];
    let aligned = &mut dataview::bytes_mut(&mut words[..])[..image.len()];
    aligned.copy_from_slice(image);
    let view = pelite::PeView::from_bytes(&*aligned).ok()?;
    let found = view.get_export_by_name(name).ok()?;
    Some(match found.symbol() {
        Some(rva) => PeExport::Symbol(rva),
        None => PeExport::Forward,
    })
}

/// Lists the export-by-name table with `pelite`: `PeView::from_bytes`, then
/// `exports`, `by` and `iter_names`, each name turned into text by its
/// `Display`. The bytes are first copied into a buffer aligned as `pelite`
/// requires, as for `export_by_name`.
///
/// Images whose export directory ends beyond 32 bits are left out, as for
/// `export_by_name`.
///
/// Trusted: the entries are those `pelite` yields for these bytes, in its
/// order; nothing more is claimed of them.
#[verifier::external_body]
pub(crate) fn named_exports(image: &[u8]) -> (r: Option<Vec<ExportEntry>>)
    requires
        !export_span_overflows(image@),
    ensures
        match r {
            Some(v) => pe_named_exports(image@) == Some(v@.map_values(|e: ExportEntry| export_entry_view(e))),
            None => pe_named_exports(image@) is None,
        },
{
    let mut words = vec![0u32; image.len()];
    let aligned = &mut dataview::bytes_mut(&mut words[..])[..image.len()];
    aligned.copy_from_slice(image);
    let view = pelite::PeView::from_bytes(&*aligned).ok()?;
    let exports = view.exports().ok()?;
    let by = exports.by().ok()?;
    Some(by.iter_names().map(|(name, export)| ExportEntry {
        name: name.ok().map(|n| n.to_string()),
        export: export.ok().map(|e| match e.symbol() {
            Some(rva) => PeExport::Symbol(rva),
            None => PeExport::Forward,
        }),
    }).collect())
}

} // verus!
