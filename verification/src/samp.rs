//! Discovery of the supported samp.dll and scans of its player pool.
//!
//! Every pointer is read through a copy that may fail. A scan that cannot
//! read a required structure returns `None` rather than an empty list, so
//! callers keep their player state instead of treating everyone as gone.

pub mod layout;

use crate::memory::{
    copy_from, copy_verdict, field_address, field_at, field_copy_from, field_pointer, field_value, le_u32, opt_bytes, pointer_verdict, read, read_bytes,
    read_field, read_field_pointer, read_pointer, value_verdict, ProcessMemory,
};
use layout::{layout_for_entry_point, layout_spec, SampLayout, SampVersion};
use vstd::prelude::*;
use vstd::utf8::*;
use vstd::string::*;
use crate::text::{hex_number, hex_number_spec};

verus! {

pub const SAMP_MAX_PLAYERS: usize = 1004;
pub const SAMP_PED_GTA_PED: usize = 0x40;
pub const MSVC_STRING_LENGTH: usize = 0x10;
pub const MSVC_STRING_CAPACITY: usize = 0x14;
pub const MSVC_STRING_SSO_CAPACITY: usize = 15;
/// SA-MP player names are at most this many bytes.
pub const MAX_NAME_LENGTH: usize = 24;

pub const DOS_SIGNATURE: u16 = 0x5A4D;
pub const PE_SIGNATURE: u32 = 0x0000_4550;
pub const PE_LFANEW_OFFSET: usize = 0x3C;
pub const PE_ENTRY_POINT_OFFSET: usize = 0x28;
pub const MAX_PE_HEADER_OFFSET: usize = 0x10000;

/// Why samp.dll was not accepted.
#[derive(Clone, Copy, Debug, PartialEq, Eq, Structural)]
pub enum SampError {
    UnreadableDosHeader,
    InvalidDosHeader,
    DosHeaderOverflow,
    UnreadablePeOffset,
    /// The PE header offset is larger than any real DLL uses.
    ImplausiblePeOffset(u32),
    PeHeaderOverflow,
    UnreadablePeSignature,
    InvalidPeSignature,
    EntryPointOverflow,
    UnreadableEntryPoint,
    /// No supported build has this entry point.
    UnsupportedBuild(u32),
}

/// The log text of each rejection of samp.dll.
pub open spec fn samp_error_text(error: SampError) -> Seq<char> {
    match error {
        SampError::UnreadableDosHeader => "could not read samp.dll DOS header"@,
        SampError::InvalidDosHeader => "samp.dll has an invalid DOS header"@,
        SampError::DosHeaderOverflow => "samp.dll DOS-header address overflowed"@,
        SampError::UnreadablePeOffset => "could not read samp.dll PE header offset"@,
        SampError::ImplausiblePeOffset(offset) => "samp.dll PE header offset 0x"@ + hex_number_spec(offset as nat, 0)
            + " is implausible"@,
        SampError::PeHeaderOverflow => "samp.dll PE header address overflowed"@,
        SampError::UnreadablePeSignature => "could not read samp.dll PE signature"@,
        SampError::InvalidPeSignature => "samp.dll has an invalid PE signature"@,
        SampError::EntryPointOverflow => "samp.dll PE entry-point address overflowed"@,
        SampError::UnreadableEntryPoint => "could not read samp.dll PE entry point"@,
        SampError::UnsupportedBuild(entry_point) => "unsupported samp.dll build (PE entry point 0x"@
            + hex_number_spec(entry_point as nat, 6)
            + "); supported: 0.3.7-R1, 0.3.7-R3-1, 0.3.7-R4, and 0.3.DL-R1"@,
    }
}

impl SampError {
    pub fn message(&self) -> (text: String)
        ensures
            text@ == samp_error_text(*self),
    {
        match self {
            SampError::UnreadableDosHeader => String::from_str("could not read samp.dll DOS header"),
            SampError::InvalidDosHeader => String::from_str("samp.dll has an invalid DOS header"),
            SampError::DosHeaderOverflow => String::from_str("samp.dll DOS-header address overflowed"),
            SampError::UnreadablePeOffset => String::from_str("could not read samp.dll PE header offset"),
            SampError::ImplausiblePeOffset(offset) => {
                let mut text = String::from_str("samp.dll PE header offset 0x");
                let number = hex_number(*offset as u64, 0);
                text.append(number.as_str());
                text.append(" is implausible");
                text
            },
            SampError::PeHeaderOverflow => String::from_str("samp.dll PE header address overflowed"),
            SampError::UnreadablePeSignature => String::from_str("could not read samp.dll PE signature"),
            SampError::InvalidPeSignature => String::from_str("samp.dll has an invalid PE signature"),
            SampError::EntryPointOverflow => String::from_str("samp.dll PE entry-point address overflowed"),
            SampError::UnreadableEntryPoint => String::from_str("could not read samp.dll PE entry point"),
            SampError::UnsupportedBuild(entry_point) => {
                let mut text = String::from_str("unsupported samp.dll build (PE entry point 0x");
                let number = hex_number(*entry_point as u64, 6);
                text.append(number.as_str());
                text.append("); supported: 0.3.7-R1, 0.3.7-R3-1, 0.3.7-R4, and 0.3.DL-R1");
                text
            },
        }
    }
}

/// The PE header offset is accepted when it is at most 64 KiB.
pub fn validated_pe_offset(lfanew: u32) -> (offset: Result<usize, SampError>)
    ensures
        match offset {
            Ok(o) => o == lfanew && lfanew <= MAX_PE_HEADER_OFFSET,
            Err(e) => e == SampError::ImplausiblePeOffset(lfanew) && lfanew > MAX_PE_HEADER_OFFSET,
        },
{
    if lfanew as usize > MAX_PE_HEADER_OFFSET {
        Err(SampError::ImplausiblePeOffset(lfanew))
    } else {
        Ok(lfanew as usize)
    }
}

/// What the DOS and PE headers of the image at `base` say, given the four
/// copies that were read: the DOS signature, the PE header offset, the PE
/// signature and the entry point. A later copy matters only once the earlier
/// ones were accepted.
pub open spec fn pe_verdict(base: usize, dos: Option<u16>, lfanew: Option<u32>, signature: Option<u32>, entry: Option<u32>) -> Result<u32, SampError> {
    match dos {
        None => Err(SampError::UnreadableDosHeader),
        Some(d) => if d != DOS_SIGNATURE {
            Err(SampError::InvalidDosHeader)
        } else if base + PE_LFANEW_OFFSET > usize::MAX {
            Err(SampError::DosHeaderOverflow)
        } else {
            match lfanew {
                None => Err(SampError::UnreadablePeOffset),
                Some(l) => if l > MAX_PE_HEADER_OFFSET {
                    Err(SampError::ImplausiblePeOffset(l))
                } else if base + l > usize::MAX {
                    Err(SampError::PeHeaderOverflow)
                } else {
                    match signature {
                        None => Err(SampError::UnreadablePeSignature),
                        Some(sig) => if sig != PE_SIGNATURE {
                            Err(SampError::InvalidPeSignature)
                        } else if base + l + PE_ENTRY_POINT_OFFSET > usize::MAX {
                            Err(SampError::EntryPointOverflow)
                        } else {
                            match entry {
                                None => Err(SampError::UnreadableEntryPoint),
                                Some(e) => Ok(e),
                            }
                        },
                    }
                },
            }
        },
    }
}

/// Judges the headers of the image at `base` by the copies read from it.
pub fn check_pe_header(base: usize, dos: Option<u16>, lfanew: Option<u32>, signature: Option<u32>, entry: Option<u32>) -> (verdict: Result<u32, SampError>)
    ensures
        verdict == pe_verdict(base, dos, lfanew, signature, entry),
{
    let d = match dos {
        None => {
            return Err(SampError::UnreadableDosHeader);
        },
        Some(d) => d,
    };
    if d != DOS_SIGNATURE {
        return Err(SampError::InvalidDosHeader);
    }
    if field_at(base, PE_LFANEW_OFFSET).is_none() {
        return Err(SampError::DosHeaderOverflow);
    }
    let l = match lfanew {
        None => {
            return Err(SampError::UnreadablePeOffset);
        },
        Some(l) => l,
    };
    let offset = match validated_pe_offset(l) {
        Ok(o) => o,
        Err(e) => {
            return Err(e);
        },
    };
    let pe_header = match field_at(base, offset) {
        Some(a) => a,
        None => {
            return Err(SampError::PeHeaderOverflow);
        },
    };
    let sig = match signature {
        None => {
            return Err(SampError::UnreadablePeSignature);
        },
        Some(sig) => sig,
    };
    if sig != PE_SIGNATURE {
        return Err(SampError::InvalidPeSignature);
    }
    if field_at(pe_header, PE_ENTRY_POINT_OFFSET).is_none() {
        return Err(SampError::EntryPointOverflow);
    }
    match entry {
        None => Err(SampError::UnreadableEntryPoint),
        Some(e) => Ok(e),
    }
}

/// The header verdict for the four copies of the image at `base`: the DOS
/// signature at `base`, the PE header offset (`e_lfanew`) in the DOS
/// header, and the PE signature and entry point in the PE header that
/// offset locates.
pub open spec fn pe_copies_verdict(
    base: usize,
    dos_copy: Option<Seq<u8>>,
    lfanew_copy: Option<Seq<u8>>,
    signature_copy: Option<Seq<u8>>,
    entry_copy: Option<Seq<u8>>,
) -> Result<u32, SampError> {
    let dos = value_verdict::<u16>(base, dos_copy);
    let lfanew = field_value::<u32>(base, PE_LFANEW_OFFSET, lfanew_copy);
    let header = match lfanew {
        Some(l) => field_address(base, l as usize),
        None => None,
    };
    let signature = match header {
        Some(h) => value_verdict::<u32>(h, signature_copy),
        None => None,
    };
    let entry = match header {
        Some(h) => field_value::<u32>(h, PE_ENTRY_POINT_OFFSET, entry_copy),
        None => None,
    };
    pe_verdict(base, dos, lfanew, signature, entry)
}

/// The copies that reading the headers asks `memory` for: the DOS
/// signature; the PE header offset after a DOS signature; the PE signature
/// at an offset in range; the entry point after a PE signature.
pub open spec fn pe_copies_from<M: ProcessMemory>(
    memory: &M,
    base: usize,
    dos_copy: Option<Seq<u8>>,
    lfanew_copy: Option<Seq<u8>>,
    signature_copy: Option<Seq<u8>>,
    entry_copy: Option<Seq<u8>>,
) -> bool {
    let header = match field_value::<u32>(base, PE_LFANEW_OFFSET, lfanew_copy) {
        Some(l) => if l <= MAX_PE_HEADER_OFFSET {
            field_address(base, l as usize)
        } else {
            None
        },
        None => None,
    };
    &&& copy_from(memory, base, 2, dos_copy)
    &&& value_verdict::<u16>(base, dos_copy) == Some(DOS_SIGNATURE) ==> field_copy_from(memory, base, PE_LFANEW_OFFSET, 4, lfanew_copy)
    &&& match header {
        Some(h) => {
            &&& copy_from(memory, h, 4, signature_copy)
            &&& value_verdict::<u32>(h, signature_copy) == Some(PE_SIGNATURE) ==> field_copy_from(
                memory,
                h,
                PE_ENTRY_POINT_OFFSET,
                4,
                entry_copy,
            )
        },
        None => true,
    }
}

/// The four header copies, each made only where the earlier ones were
/// accepted.
fn pe_reads<M: ProcessMemory>(memory: &M, base: usize) -> (reads: (Option<u16>, Option<u32>, Option<u32>, Option<u32>))
    ensures
        exists|dos_copy: Option<Seq<u8>>, lfanew_copy: Option<Seq<u8>>, signature_copy: Option<Seq<u8>>, entry_copy: Option<Seq<u8>>|
            pe_copies_from(memory, base, dos_copy, lfanew_copy, signature_copy, entry_copy)
            && pe_verdict(base, reads.0, reads.1, reads.2, reads.3)
                == pe_copies_verdict(base, dos_copy, lfanew_copy, signature_copy, entry_copy),
{
    let dos: Option<u16> = read::<u16, M>(memory, base);
    let ghost cd = choose|copy: Option<Seq<u8>>| copy_from(memory, base, 2, copy) && dos == value_verdict::<u16>(base, copy);
    let ghost mut cl: Option<Seq<u8>> = None;
    let lfanew: Option<u32> = match dos {
        Some(d) => if d == DOS_SIGNATURE {
            let l = read_field::<u32, M>(memory, base, PE_LFANEW_OFFSET);
            proof {
                cl = choose|copy: Option<Seq<u8>>|
                    field_copy_from(memory, base, PE_LFANEW_OFFSET, 4, copy) && l == field_value::<u32>(base, PE_LFANEW_OFFSET, copy);
            }
            l
        } else {
            None
        },
        None => None,
    };
    let pe_header: Option<usize> = match lfanew {
        Some(l) => if (l as usize) <= MAX_PE_HEADER_OFFSET {
            field_at(base, l as usize)
        } else {
            None
        },
        None => None,
    };
    let ghost mut cs: Option<Seq<u8>> = None;
    let signature: Option<u32> = match pe_header {
        Some(address) => {
            let sig = read::<u32, M>(memory, address);
            proof {
                cs = choose|copy: Option<Seq<u8>>| copy_from(memory, address, 4, copy) && sig == value_verdict::<u32>(address, copy);
            }
            sig
        },
        None => None,
    };
    let ghost mut ce: Option<Seq<u8>> = None;
    let entry: Option<u32> = match (pe_header, signature) {
        (Some(address), Some(sig)) => if sig == PE_SIGNATURE {
            let e = read_field::<u32, M>(memory, address, PE_ENTRY_POINT_OFFSET);
            proof {
                ce = choose|copy: Option<Seq<u8>>|
                    field_copy_from(memory, address, PE_ENTRY_POINT_OFFSET, 4, copy)
                    && e == field_value::<u32>(address, PE_ENTRY_POINT_OFFSET, copy);
            }
            e
        } else {
            None
        },
        _ => None,
    };
    assert(pe_verdict(base, dos, lfanew, signature, entry) == pe_copies_verdict(base, cd, cl, cs, ce));
    assert(pe_copies_from(memory, base, cd, cl, cs, ce));
    (dos, lfanew, signature, entry)
}

/// Reads the entry point of the PE image at `base`, checking the DOS and PE
/// signatures on the way.
pub fn pe_entry_point<M: ProcessMemory>(memory: &M, base: usize) -> (entry_point: Result<u32, SampError>)
    ensures
        exists|dos_copy: Option<Seq<u8>>, lfanew_copy: Option<Seq<u8>>, signature_copy: Option<Seq<u8>>, entry_copy: Option<Seq<u8>>|
            pe_copies_from(memory, base, dos_copy, lfanew_copy, signature_copy, entry_copy)
            && entry_point == pe_copies_verdict(base, dos_copy, lfanew_copy, signature_copy, entry_copy),
        base == 0 ==> entry_point == Err::<u32, SampError>(SampError::UnreadableDosHeader),
{
    let (dos, lfanew, signature, entry) = pe_reads(memory, base);
    check_pe_header(base, dos, lfanew, signature, entry)
}

/// A remote player's slot in the pool, or the local player.
pub type PlayerId = u16;

/// One streamed SA-MP ped.
pub struct StreamedPed {
    pub player_id: PlayerId,
    pub is_local: bool,
    /// `None` when the name is empty, malformed or unreadable; the ped stays
    /// usable for model-only rules.
    pub name: Option<String>,
    /// The GTA `CPed` address, never zero.
    pub address: usize,
}

/// The size of the remote-player pointer array for `max_player_id`.
pub fn player_entries_size(max_player_id: usize) -> (size: Option<usize>)
    ensures
        match size {
            Some(s) => s == (max_player_id + 1) * 4,
            None => (max_player_id + 1) * 4 > usize::MAX,
        },
{
    if max_player_id >= usize::MAX / 4 {
        None
    } else {
        Some((max_player_id + 1) * 4)
    }
}

/// The little-endian 32-bit entries of a pointer array, one per full four
/// bytes.
pub open spec fn entry_at(bytes: Seq<u8>, i: int) -> usize {
    le_u32(bytes.subrange(4 * i, 4 * i + 4)) as usize
}

pub fn decode_player_entries(bytes: &[u8]) -> (entries: Vec<usize>)
    ensures
        entries@.len() == bytes@.len() / 4,
        forall|i: int| 0 <= i < entries@.len() ==> #[trigger] entries@[i] == entry_at(bytes@, i),
{
    let mut entries: Vec<usize> = Vec::new();
    let count = bytes.len() / 4;
    let mut i: usize = 0;
    while i < count
        invariant
            count == bytes@.len() / 4,
            i <= count,
            entries@.len() == i,
            forall|k: int| 0 <= k < i ==> #[trigger] entries@[k] == entry_at(bytes@, k),
        decreases count - i,
    {
        assert(bytes@.len() == bytes.len());
        assert(4 * i + 4 <= bytes@.len());
        let at = 4 * i;
        let value: u32 = bytes[at] as u32 + bytes[at + 1] as u32 * 0x100 + bytes[at + 2] as u32 * 0x10000
            + bytes[at + 3] as u32 * 0x1000000;
        proof {
            let chunk = bytes@.subrange(4 * i, 4 * i + 4);
            assert(chunk[0] == bytes@[at as int]);
            assert(chunk[1] == bytes@[at + 1]);
            assert(chunk[2] == bytes@[at + 2]);
            assert(chunk[3] == bytes@[at + 3]);
        }
        entries.push(value as usize);
        i = i + 1;
    }
    entries
}

/// Where the characters of an MSVC x86 `std::string` live.
#[derive(Clone, Copy, Debug, PartialEq, Eq, Structural)]
pub enum TextLocation {
    /// Inside the string object (small-string storage).
    Inline,
    /// Behind the pointer stored at the start of the object.
    Heap,
}

/// An empty, over-long or inconsistent string is not a player name.
pub fn msvc_text_location(length: usize, capacity: usize) -> (location: Option<TextLocation>)
    ensures
        match location {
            None => length == 0 || length > MAX_NAME_LENGTH || capacity < length,
            Some(TextLocation::Inline) => !(length == 0 || length > MAX_NAME_LENGTH || capacity < length)
                && capacity <= MSVC_STRING_SSO_CAPACITY,
            Some(TextLocation::Heap) => !(length == 0 || length > MAX_NAME_LENGTH || capacity < length)
                && capacity > MSVC_STRING_SSO_CAPACITY,
        },
{
    if length == 0 || length > MAX_NAME_LENGTH || capacity < length {
        None
    } else if capacity <= MSVC_STRING_SSO_CAPACITY {
        Some(TextLocation::Inline)
    } else {
        Some(TextLocation::Heap)
    }
}

/// Decodes bytes with `std::str::from_utf8`.
///
/// Per the standard library's documentation, the result is present exactly
/// when the bytes are valid UTF-8 and then holds the characters they encode.
#[verifier::external_body]
fn str_from_utf8(bytes: &[u8]) -> (text: Option<&str>)
    ensures
        text is Some <==> valid_utf8(bytes@),
        text matches Some(t) ==> t@ == decode_utf8(bytes@),
{
    std::str::from_utf8(bytes).ok()
}

/// A name is the UTF-8 text of its bytes.
pub fn decode_name(bytes: &[u8]) -> (name: Option<String>)
    ensures
        name is Some <==> valid_utf8(bytes@),
        name matches Some(n) ==> n@ == decode_utf8(bytes@),
{
    match str_from_utf8(bytes) {
        Some(text) => Some(text.to_owned()),
        None => None,
    }
}

/// Where the text of a string with this length and capacity is read: in
/// the object for small strings, else behind the pointer that a copy of
/// the object's first field gives.
pub open spec fn msvc_text_address(name_address: usize, length: usize, capacity: usize, pointer_copy: Option<Seq<u8>>) -> Option<usize> {
    if capacity <= MSVC_STRING_SSO_CAPACITY {
        Some(name_address)
    } else {
        pointer_verdict(name_address, pointer_copy)
    }
}

/// The name that the copies of an MSVC `std::string` at
/// `object + string_offset` give: its length, its capacity, the text
/// pointer where the text is not inline, and the text.
pub open spec fn msvc_copies_verdict(
    object: usize,
    string_offset: usize,
    length_copy: Option<Seq<u8>>,
    capacity_copy: Option<Seq<u8>>,
    pointer_copy: Option<Seq<u8>>,
    text_copy: Option<Seq<u8>>,
) -> Option<Seq<char>> {
    match field_address(object, string_offset) {
        None => None,
        Some(name_address) => {
            let length = field_pointer(name_address, MSVC_STRING_LENGTH, length_copy);
            let capacity = field_pointer(name_address, MSVC_STRING_CAPACITY, capacity_copy);
            let text = match (length, capacity) {
                (Some(l), Some(c)) => match msvc_text_address(name_address, l, c, pointer_copy) {
                    Some(address) => copy_verdict(address, l, text_copy),
                    None => None,
                },
                _ => None,
            };
            msvc_name_verdict(length, capacity, text)
        },
    }
}

/// The copies that reading an MSVC `std::string` asks `memory` for: its
/// length and capacity, then for a plausible string the text pointer where
/// the text is not inline, and the text where its address is known.
pub open spec fn msvc_copies_from<M: ProcessMemory>(
    memory: &M,
    object: usize,
    string_offset: usize,
    length_copy: Option<Seq<u8>>,
    capacity_copy: Option<Seq<u8>>,
    pointer_copy: Option<Seq<u8>>,
    text_copy: Option<Seq<u8>>,
) -> bool {
    match field_address(object, string_offset) {
        None => true,
        Some(name_address) => {
            &&& field_copy_from(memory, name_address, MSVC_STRING_LENGTH, 4, length_copy)
            &&& field_copy_from(memory, name_address, MSVC_STRING_CAPACITY, 4, capacity_copy)
            &&& match (
                field_pointer(name_address, MSVC_STRING_LENGTH, length_copy),
                field_pointer(name_address, MSVC_STRING_CAPACITY, capacity_copy),
            ) {
                (Some(l), Some(c)) => !(l == 0 || l > MAX_NAME_LENGTH || c < l) ==> {
                    &&& c > MSVC_STRING_SSO_CAPACITY ==> copy_from(memory, name_address, 4, pointer_copy)
                    &&& match msvc_text_address(name_address, l, c, pointer_copy) {
                        Some(address) => copy_from(memory, address, l, text_copy),
                        None => true,
                    }
                },
                _ => true,
            }
        },
    }
}

/// A name that reading the MSVC `std::string` at `object + string_offset`
/// may give: the verdict on copies that `memory` may give of the ranges
/// the read asks for.
pub open spec fn name_read<M: ProcessMemory>(memory: &M, object: usize, string_offset: usize, name: Option<String>) -> bool {
    exists|length_copy: Option<Seq<u8>>, capacity_copy: Option<Seq<u8>>, pointer_copy: Option<Seq<u8>>, text_copy: Option<Seq<u8>>|
        msvc_copies_from(memory, object, string_offset, length_copy, capacity_copy, pointer_copy, text_copy)
        && crate::text::opt_chars(name) == #[trigger] msvc_copies_verdict(
            object,
            string_offset,
            length_copy,
            capacity_copy,
            pointer_copy,
            text_copy,
        )
}

/// Reads an MSVC x86 `std::string` stored at `object + string_offset`.
pub fn read_msvc_string<M: ProcessMemory>(memory: &M, object: usize, string_offset: usize) -> (name: Option<String>)
    ensures
        name matches Some(n) ==> 0 < n@.len() <= MAX_NAME_LENGTH,
        name_read(memory, object, string_offset, name),
{
    let name_address = match field_at(object, string_offset) {
        Some(a) => a,
        None => {
            assert(msvc_copies_verdict(object, string_offset, None, None, None, None) is None);
            return None;
        },
    };
    let length_read: Option<usize> = read_field_pointer(memory, name_address, MSVC_STRING_LENGTH);
    let ghost cl = choose|copy: Option<Seq<u8>>|
        field_copy_from(memory, name_address, MSVC_STRING_LENGTH, 4, copy)
        && length_read == field_pointer(name_address, MSVC_STRING_LENGTH, copy);
    let capacity_read: Option<usize> = read_field_pointer(memory, name_address, MSVC_STRING_CAPACITY);
    let ghost cc = choose|copy: Option<Seq<u8>>|
        field_copy_from(memory, name_address, MSVC_STRING_CAPACITY, 4, copy)
        && capacity_read == field_pointer(name_address, MSVC_STRING_CAPACITY, copy);
    let (length, capacity) = match (length_read, capacity_read) {
        (Some(l), Some(c)) => (l, c),
        _ => {
            assert(msvc_copies_verdict(object, string_offset, cl, cc, None, None) is None);
            assert(msvc_copies_from(memory, object, string_offset, cl, cc, None, None));
            return None;
        },
    };
    let location = match msvc_text_location(length, capacity) {
        Some(location) => location,
        None => {
            assert(msvc_copies_verdict(object, string_offset, cl, cc, None, None) is None);
            assert(msvc_copies_from(memory, object, string_offset, cl, cc, None, None));
            return None;
        },
    };
    let ghost mut cp: Option<Seq<u8>> = None;
    let text_address: Option<usize> = match location {
        TextLocation::Inline => Some(name_address),
        TextLocation::Heap => {
            let pointer = read_pointer(memory, name_address);
            proof {
                cp = choose|copy: Option<Seq<u8>>| copy_from(memory, name_address, 4, copy) && pointer == pointer_verdict(name_address, copy);
            }
            pointer
        },
    };
    assert(text_address == msvc_text_address(name_address, length, capacity, cp));
    let ghost mut ct: Option<Seq<u8>> = None;
    let text_read: Option<Vec<u8>> = match text_address {
        Some(address) => {
            let text = read_bytes(memory, address, length);
            proof {
                ct = choose|copy: Option<Seq<u8>>|
                    copy_from(memory, address, length, copy) && opt_bytes(text) == #[trigger] copy_verdict(address, length, copy);
            }
            text
        },
        None => None,
    };
    let bytes = match text_read {
        Some(bytes) => bytes,
        None => {
            assert(msvc_copies_verdict(object, string_offset, cl, cc, cp, ct) is None);
            assert(msvc_copies_from(memory, object, string_offset, cl, cc, cp, ct));
            return None;
        },
    };
    let name = decode_name(bytes.as_slice());
    proof {
        if name is Some {
            decode_utf8_len(bytes@);
        }
        assert(crate::text::opt_chars(name) == msvc_copies_verdict(object, string_offset, cl, cc, cp, ct));
        assert(msvc_copies_from(memory, object, string_offset, cl, cc, cp, ct));
    }
    name
}

/// The player name an MSVC `std::string` holds, given the copies of its
/// length, its capacity and its text: an empty, over-long or inconsistent
/// string, a short copy or invalid UTF-8 is no name.
pub open spec fn msvc_name_verdict(length: Option<usize>, capacity: Option<usize>, text: Option<Seq<u8>>) -> Option<Seq<char>> {
    match (length, capacity) {
        (Some(l), Some(c)) => if l == 0 || l > MAX_NAME_LENGTH || c < l {
            None
        } else {
            match text {
                Some(b) => if b.len() == l && valid_utf8(b) {
                    Some(decode_utf8(b))
                } else {
                    None
                },
                None => None,
            }
        },
        _ => None,
    }
}

/// A valid UTF-8 text of `n` bytes has between 1 and `n` characters when `n > 0`.
proof fn decode_utf8_len(bytes: Seq<u8>)
    requires
        valid_utf8(bytes),
    ensures
        decode_utf8(bytes).len() <= bytes.len(),
        bytes.len() > 0 ==> decode_utf8(bytes).len() > 0,
{
    decode_utf8_encode_utf8(bytes);
    let chars = decode_utf8(bytes);
    lemma_encode_len(chars);
}

proof fn lemma_encode_len(chars: Seq<char>)
    ensures
        chars.len() <= encode_utf8(chars).len(),
        chars.len() == 0 <==> encode_utf8(chars).len() == 0,
    decreases chars.len(),
{
    if chars.len() > 0 {
        lemma_encode_len(chars.drop_first());
        let c = chars[0] as u32;
        assert(encode_scalar(c).len() >= 1);
    }
}

/// Three copies along a pointer chain, such as a remote entry's
/// `CRemotePlayer`, SA-MP ped and GTA ped pointers.
pub type PedCopies = (Option<Seq<u8>>, Option<Seq<u8>>, Option<Seq<u8>>);

/// Two copies along a pointer chain.
pub type CopyPair = (Option<Seq<u8>>, Option<Seq<u8>>);

/// A pointer chain stops at a null pointer.
pub open spec fn non_null(pointer: Option<usize>) -> Option<usize> {
    match pointer {
        Some(p) => if p == 0 {
            None
        } else {
            Some(p)
        },
        None => None,
    }
}

/// What a copy of a SA-MP ped's GTA ped pointer gives: `Some(None)` for the
/// null SA-MP ped or a null GTA ped, `None` when the copy failed.
pub open spec fn gta_ped_copy_verdict(samp_ped: usize, copy: Option<Seq<u8>>) -> Option<Option<usize>> {
    if samp_ped == 0 {
        Some(None)
    } else {
        match field_pointer(samp_ped, SAMP_PED_GTA_PED, copy) {
            None => None,
            Some(g) => if g == 0 {
                Some(None)
            } else {
                Some(Some(g))
            },
        }
    }
}

/// The player pool that the copies of the `CNetGame`, pools and player pool
/// pointers give, each read at the offset the build's layout names.
pub open spec fn player_pool_verdict(base: usize, layout: SampLayout, copies: PedCopies) -> Option<usize> {
    match non_null(field_pointer(base, layout.samp_info_offset, copies.0)) {
        None => None,
        Some(net_game) => match non_null(field_pointer(net_game, layout.net_game_pools_offset, copies.1)) {
            None => None,
            Some(pools) => non_null(field_pointer(pools, layout.pools_player_offset, copies.2)),
        },
    }
}

/// The remote-player entries of the pool: the largest player ID is read
/// first, then one pointer per player ID up to it.
pub open spec fn player_entries_verdict(pool: usize, layout: SampLayout, copies: CopyPair) -> Option<Seq<usize>> {
    match field_value::<u32>(pool, layout.player_pool_largest_id_offset, copies.0) {
        None => None,
        Some(m) => if m >= SAMP_MAX_PLAYERS {
            None
        } else {
            match field_address(pool, layout.player_pool_remote_players_offset) {
                None => None,
                Some(array) => match copy_verdict(array, ((m + 1) * 4) as usize, copies.1) {
                    None => None,
                    Some(bytes) => Some(Seq::new(bytes.len() / 4, |i: int| entry_at(bytes, i))),
                },
            }
        }
    }
}

/// The GTA ped of a non-empty remote entry, through the layout's offsets.
pub open spec fn remote_ped_verdict(layout: SampLayout, remote: usize, copies: PedCopies) -> Option<Option<usize>> {
    match field_pointer(remote, layout.player_info_remote_player_offset, copies.0) {
        None => None,
        Some(remote_player) => if remote_player == 0 {
            Some(None)
        } else {
            match field_pointer(remote_player, layout.remote_player_samp_ped_offset, copies.1) {
                None => None,
                Some(samp_ped) => gta_ped_copy_verdict(samp_ped, copies.2),
            }
        },
    }
}

/// The (player ID, GTA ped) pairs of the first `n` entries, in slot order;
/// `None` once a required copy failed.
pub open spec fn remote_peds_verdict(layout: SampLayout, entries: Seq<usize>, copies: Seq<PedCopies>, n: nat) -> Option<Seq<(usize, usize)>>
    decreases n,
{
    if n == 0 {
        Some(Seq::empty())
    } else {
        match remote_peds_verdict(layout, entries, copies, (n - 1) as nat) {
            None => None,
            Some(prefix) => if entries[n - 1] == 0 {
                Some(prefix)
            } else {
                match remote_ped_verdict(layout, entries[n - 1], copies[n - 1]) {
                    None => None,
                    Some(None) => Some(prefix),
                    Some(Some(ped)) => Some(prefix.push(((n - 1) as usize, ped))),
                }
            },
        }
    }
}

/// The remote peds of the pool.
pub open spec fn remote_scan_verdict(layout: SampLayout, pool: usize, entry_copies: CopyPair, copies: Seq<PedCopies>) -> Option<Seq<(usize, usize)>> {
    match player_entries_verdict(pool, layout, entry_copies) {
        None => None,
        Some(entries) => remote_peds_verdict(layout, entries, copies, entries.len()),
    }
}

/// The GTA ped of the local player object: its SA-MP ped pointer is the
/// object's first field.
pub open spec fn local_player_gta_verdict(local_player: usize, copies: CopyPair) -> Option<Option<usize>> {
    if local_player == 0 {
        Some(None)
    } else {
        match pointer_verdict(local_player, copies.0) {
            None => None,
            Some(samp_ped) => gta_ped_copy_verdict(samp_ped, copies.1),
        }
    }
}

/// The local player's GTA ped, for the liveness scan.
pub open spec fn local_gta_verdict(pool: usize, layout: SampLayout, copies: PedCopies) -> Option<Option<usize>> {
    match field_pointer(pool, layout.player_pool_local_player_offset, copies.0) {
        None => None,
        Some(local_player) => local_player_gta_verdict(local_player, (copies.1, copies.2)),
    }
}

/// The local player's ID and GTA ped; the ID is read only for a present
/// local player and must name a valid slot.
pub open spec fn local_ped_verdict(pool: usize, layout: SampLayout, copies: PedCopies, id_copy: Option<Seq<u8>>) -> Option<Option<(usize, usize)>> {
    match field_pointer(pool, layout.player_pool_local_player_offset, copies.0) {
        None => None,
        Some(local_player) => if local_player == 0 {
            Some(None)
        } else {
            match field_value::<u16>(pool, layout.player_pool_local_player_id_offset, id_copy) {
                None => None,
                Some(id) => if id >= SAMP_MAX_PLAYERS {
                    None
                } else {
                    match local_player_gta_verdict(local_player, (copies.1, copies.2)) {
                        None => None,
                        Some(None) => Some(None),
                        Some(Some(ped)) => Some(Some((id as usize, ped))),
                    }
                },
            }
        },
    }
}

/// The streamed peds as (player ID, GTA ped) pairs: the remote players in
/// slot order, then the local player.
pub open spec fn ped_scan_verdict(
    base: usize,
    layout: SampLayout,
    pool_copies: PedCopies,
    entry_copies: CopyPair,
    remote_copies: Seq<PedCopies>,
    local_copies: PedCopies,
    id_copy: Option<Seq<u8>>,
) -> Option<Seq<(usize, usize)>> {
    match player_pool_verdict(base, layout, pool_copies) {
        None => None,
        Some(pool) => match remote_scan_verdict(layout, pool, entry_copies, remote_copies) {
            None => None,
            Some(remote) => match local_ped_verdict(pool, layout, local_copies, id_copy) {
                None => None,
                Some(None) => Some(remote),
                Some(Some(local)) => Some(remote.push(local)),
            },
        },
    }
}

/// The GTA peds of every SA-MP player: the remote players in slot order,
/// then the local player.
pub open spec fn all_peds_verdict(
    base: usize,
    layout: SampLayout,
    pool_copies: PedCopies,
    entry_copies: CopyPair,
    remote_copies: Seq<PedCopies>,
    local_copies: PedCopies,
) -> Option<Seq<usize>> {
    match player_pool_verdict(base, layout, pool_copies) {
        None => None,
        Some(pool) => match remote_scan_verdict(layout, pool, entry_copies, remote_copies) {
            None => None,
            Some(remote) => {
                let peds = remote.map_values(|p: (usize, usize)| p.1);
                match local_gta_verdict(pool, layout, local_copies) {
                    None => None,
                    Some(None) => Some(peds),
                    Some(Some(local)) => Some(peds.push(local)),
                }
            },
        },
    }
}

/// The (player ID, GTA ped) pairs of a scan's result.
pub open spec fn ped_pairs(peds: Option<Vec<StreamedPed>>) -> Option<Seq<(usize, usize)>> {
    match peds {
        Some(v) => Some(v@.map_values(|p: StreamedPed| (p.player_id as usize, p.address))),
        None => None,
    }
}

/// The local player's (player ID, GTA ped) pair of a scan's result.
pub open spec fn local_pair(ped: Option<Option<StreamedPed>>) -> Option<Option<(usize, usize)>> {
    match ped {
        None => None,
        Some(None) => Some(None),
        Some(Some(p)) => Some(Some((p.player_id as usize, p.address))),
    }
}

/// The view of an optional vector.
pub open spec fn opt_seq<A>(v: Option<Vec<A>>) -> Option<Seq<A>> {
    match v {
        Some(v) => Some(v@),
        None => None,
    }
}

/// The copy of a SA-MP ped's GTA ped pointer that is asked for: none for
/// the null SA-MP ped.
pub open spec fn gta_ped_copy_from<M: ProcessMemory>(memory: &M, samp_ped: usize, copy: Option<Seq<u8>>) -> bool {
    samp_ped != 0 ==> field_copy_from(memory, samp_ped, SAMP_PED_GTA_PED, 4, copy)
}

/// The copies that finding the player pool asks `memory` for: each pointer
/// at the layout's offset into the structure the previous one named.
pub open spec fn player_pool_copies_from<M: ProcessMemory>(memory: &M, base: usize, layout: SampLayout, copies: PedCopies) -> bool {
    &&& field_copy_from(memory, base, layout.samp_info_offset, 4, copies.0)
    &&& match non_null(field_pointer(base, layout.samp_info_offset, copies.0)) {
        Some(net_game) => {
            &&& field_copy_from(memory, net_game, layout.net_game_pools_offset, 4, copies.1)
            &&& match non_null(field_pointer(net_game, layout.net_game_pools_offset, copies.1)) {
                Some(pools) => field_copy_from(memory, pools, layout.pools_player_offset, 4, copies.2),
                None => true,
            }
        },
        None => true,
    }
}

/// The copies that reading the remote entries asks `memory` for: the
/// largest player ID, then for a valid one the whole pointer array.
pub open spec fn player_entries_copies_from<M: ProcessMemory>(memory: &M, pool: usize, layout: SampLayout, copies: CopyPair) -> bool {
    &&& field_copy_from(memory, pool, layout.player_pool_largest_id_offset, 4, copies.0)
    &&& match field_value::<u32>(pool, layout.player_pool_largest_id_offset, copies.0) {
        Some(m) => m < SAMP_MAX_PLAYERS ==> match field_address(pool, layout.player_pool_remote_players_offset) {
            Some(array) => copy_from(memory, array, ((m + 1) * 4) as usize, copies.1),
            None => true,
        },
        None => true,
    }
}

/// The copies that following one non-empty remote entry asks `memory` for.
pub open spec fn remote_ped_copies_from<M: ProcessMemory>(memory: &M, layout: SampLayout, remote: usize, copies: PedCopies) -> bool {
    &&& field_copy_from(memory, remote, layout.player_info_remote_player_offset, 4, copies.0)
    &&& match field_pointer(remote, layout.player_info_remote_player_offset, copies.0) {
        Some(remote_player) => remote_player != 0 ==> {
            &&& field_copy_from(memory, remote_player, layout.remote_player_samp_ped_offset, 4, copies.1)
            &&& match field_pointer(remote_player, layout.remote_player_samp_ped_offset, copies.1) {
                Some(samp_ped) => gta_ped_copy_from(memory, samp_ped, copies.2),
                None => true,
            }
        },
        None => true,
    }
}

/// The copies that the remote entries ask `memory` for: those of each
/// non-empty entry reached before a copy failed.
pub open spec fn remote_peds_copies_from<M: ProcessMemory>(memory: &M, layout: SampLayout, entries: Seq<usize>, copies: Seq<PedCopies>) -> bool {
    forall|k: int|
        0 <= k < entries.len() && entries[k] != 0 && remote_peds_verdict(layout, entries, copies, k as nat) is Some
            ==> remote_ped_copies_from(memory, layout, entries[k], #[trigger] copies[k])
}

/// The copies that scanning the remote players asks `memory` for.
pub open spec fn remote_scan_copies_from<M: ProcessMemory>(
    memory: &M,
    layout: SampLayout,
    pool: usize,
    entry_copies: CopyPair,
    copies: Seq<PedCopies>,
) -> bool {
    &&& player_entries_copies_from(memory, pool, layout, entry_copies)
    &&& match player_entries_verdict(pool, layout, entry_copies) {
        Some(entries) => remote_peds_copies_from(memory, layout, entries, copies),
        None => true,
    }
}

/// The copies that following the local player object asks `memory` for.
pub open spec fn local_player_gta_copies_from<M: ProcessMemory>(memory: &M, local_player: usize, copies: CopyPair) -> bool {
    local_player != 0 ==> {
        &&& copy_from(memory, local_player, 4, copies.0)
        &&& match pointer_verdict(local_player, copies.0) {
            Some(samp_ped) => gta_ped_copy_from(memory, samp_ped, copies.1),
            None => true,
        }
    }
}

/// The copies that finding the local player's GTA ped asks `memory` for.
pub open spec fn local_gta_copies_from<M: ProcessMemory>(memory: &M, pool: usize, layout: SampLayout, copies: PedCopies) -> bool {
    &&& field_copy_from(memory, pool, layout.player_pool_local_player_offset, 4, copies.0)
    &&& match field_pointer(pool, layout.player_pool_local_player_offset, copies.0) {
        Some(local_player) => local_player_gta_copies_from(memory, local_player, (copies.1, copies.2)),
        None => true,
    }
}

/// The copies that reading the local player asks `memory` for: its object,
/// then for a present one its ID, then for a valid ID its GTA ped.
pub open spec fn local_ped_copies_from<M: ProcessMemory>(
    memory: &M,
    pool: usize,
    layout: SampLayout,
    copies: PedCopies,
    id_copy: Option<Seq<u8>>,
) -> bool {
    &&& field_copy_from(memory, pool, layout.player_pool_local_player_offset, 4, copies.0)
    &&& match field_pointer(pool, layout.player_pool_local_player_offset, copies.0) {
        Some(local_player) => local_player != 0 ==> {
            &&& field_copy_from(memory, pool, layout.player_pool_local_player_id_offset, 2, id_copy)
            &&& match field_value::<u16>(pool, layout.player_pool_local_player_id_offset, id_copy) {
                Some(id) => id < SAMP_MAX_PLAYERS ==> local_player_gta_copies_from(memory, local_player, (copies.1, copies.2)),
                None => true,
            }
        },
        None => true,
    }
}

/// The copies that the streamed-ped scan asks `memory` for.
pub open spec fn ped_scan_copies_from<M: ProcessMemory>(
    memory: &M,
    base: usize,
    layout: SampLayout,
    pool_copies: PedCopies,
    entry_copies: CopyPair,
    remote_copies: Seq<PedCopies>,
    local_copies: PedCopies,
    id_copy: Option<Seq<u8>>,
) -> bool {
    &&& player_pool_copies_from(memory, base, layout, pool_copies)
    &&& match player_pool_verdict(base, layout, pool_copies) {
        Some(pool) => {
            &&& remote_scan_copies_from(memory, layout, pool, entry_copies, remote_copies)
            &&& remote_scan_verdict(layout, pool, entry_copies, remote_copies) is Some ==> local_ped_copies_from(
                memory,
                pool,
                layout,
                local_copies,
                id_copy,
            )
        },
        None => true,
    }
}

/// Each remote ped's name is what reading the name string of its entry
/// gives.
pub open spec fn remote_names_read<M: ProcessMemory>(memory: &M, layout: SampLayout, entries: Seq<usize>, peds: Seq<StreamedPed>) -> bool {
    forall|i: int|
        0 <= i < peds.len() ==> (#[trigger] peds[i]).player_id < entries.len() && name_read(
            memory,
            entries[peds[i].player_id as int],
            layout.remote_player_name_offset,
            peds[i].name,
        )
}

/// Each ped's name is what reading its name string gives: in the player
/// pool for the local player, in its entry for a remote one.
pub open spec fn ped_names_read<M: ProcessMemory>(
    memory: &M,
    base: usize,
    layout: SampLayout,
    pool_copies: PedCopies,
    entry_copies: CopyPair,
    peds: Seq<StreamedPed>,
) -> bool {
    match player_pool_verdict(base, layout, pool_copies) {
        None => true,
        Some(pool) => forall|i: int|
            0 <= i < peds.len() ==> if (#[trigger] peds[i]).is_local {
                name_read(memory, pool, layout.player_pool_local_name_offset, peds[i].name)
            } else {
                match player_entries_verdict(pool, layout, entry_copies) {
                    Some(entries) => peds[i].player_id < entries.len() && name_read(
                        memory,
                        entries[peds[i].player_id as int],
                        layout.remote_player_name_offset,
                        peds[i].name,
                    ),
                    None => false,
                }
            },
    }
}

/// The scan ends with the local player's ped exactly when the local player
/// has one.
pub open spec fn local_last(
    base: usize,
    layout: SampLayout,
    pool_copies: PedCopies,
    local_copies: PedCopies,
    id_copy: Option<Seq<u8>>,
    peds: Seq<StreamedPed>,
) -> bool {
    match player_pool_verdict(base, layout, pool_copies) {
        None => true,
        Some(pool) => (local_ped_verdict(pool, layout, local_copies, id_copy) matches Some(Some(_))) <==> (peds.len() > 0
            && peds[peds.len() - 1].is_local),
    }
}

/// The copies that the liveness scan asks `memory` for.
pub open spec fn all_peds_copies_from<M: ProcessMemory>(
    memory: &M,
    base: usize,
    layout: SampLayout,
    pool_copies: PedCopies,
    entry_copies: CopyPair,
    remote_copies: Seq<PedCopies>,
    local_copies: PedCopies,
) -> bool {
    &&& player_pool_copies_from(memory, base, layout, pool_copies)
    &&& match player_pool_verdict(base, layout, pool_copies) {
        Some(pool) => {
            &&& remote_scan_copies_from(memory, layout, pool, entry_copies, remote_copies)
            &&& remote_scan_verdict(layout, pool, entry_copies, remote_copies) is Some ==> local_gta_copies_from(
                memory,
                pool,
                layout,
                local_copies,
            )
        },
        None => true,
    }
}

/// Which copies a remote-ped scan depends on stops growing once `n` copies
/// are fixed.
proof fn lemma_remote_prefix(layout: SampLayout, entries: Seq<usize>, a: Seq<PedCopies>, b: Seq<PedCopies>, n: nat)
    requires
        forall|k: int| 0 <= k < n ==> a[k] == b[k],
    ensures
        remote_peds_verdict(layout, entries, a, n) == remote_peds_verdict(layout, entries, b, n),
    decreases n,
{
    if n > 0 {
        lemma_remote_prefix(layout, entries, a, b, (n - 1) as nat);
    }
}

/// A failed copy fails the rest of the scan.
proof fn lemma_remote_failure_stays(layout: SampLayout, entries: Seq<usize>, copies: Seq<PedCopies>, n: nat, m: nat)
    requires
        n <= m,
        remote_peds_verdict(layout, entries, copies, n) is None,
    ensures
        remote_peds_verdict(layout, entries, copies, m) is None,
    decreases m,
{
    if m > n {
        lemma_remote_failure_stays(layout, entries, copies, n, (m - 1) as nat);
    }
}

/// Follows a SA-MP ped to its GTA ped: `Some(None)` when the player has no
/// streamed GTA ped, `None` when a pointer could not be read.
pub fn gta_ped_from_samp_ped<M: ProcessMemory>(memory: &M, samp_ped: usize) -> (ped: Option<Option<usize>>)
    ensures
        samp_ped == 0 ==> ped == Some(None::<usize>),
        ped matches Some(Some(address)) ==> address != 0,
        exists|copy: Option<Seq<u8>>| gta_ped_copy_from(memory, samp_ped, copy) && ped == gta_ped_copy_verdict(samp_ped, copy),
{
    if samp_ped == 0 {
        assert(gta_ped_copy_verdict(samp_ped, None) == Some(None::<usize>));
        return Some(None);
    }
    let gta_ped = read_field_pointer(memory, samp_ped, SAMP_PED_GTA_PED);
    let ghost c = choose|copy: Option<Seq<u8>>|
        field_copy_from(memory, samp_ped, SAMP_PED_GTA_PED, 4, copy) && gta_ped == field_pointer(samp_ped, SAMP_PED_GTA_PED, copy);
    let ped = match gta_ped {
        None => None,
        Some(g) => if g == 0 {
            Some(None)
        } else {
            Some(Some(g))
        },
    };
    assert(ped == gta_ped_copy_verdict(samp_ped, c));
    assert(gta_ped_copy_from(memory, samp_ped, c));
    ped
}

/// Reads the pointer in the field `offset` bytes past `base`; a null
/// pointer counts as none.
fn read_non_null<M: ProcessMemory>(memory: &M, base: usize, offset: usize) -> (pointer: Option<usize>)
    ensures
        exists|copy: Option<Seq<u8>>|
            field_copy_from(memory, base, offset, 4, copy) && pointer == non_null(field_pointer(base, offset, copy)),
{
    let read = read_field_pointer(memory, base, offset);
    let ghost c = choose|copy: Option<Seq<u8>>| field_copy_from(memory, base, offset, 4, copy) && read == field_pointer(base, offset, copy);
    let pointer = match read {
        Some(p) => if p == 0 {
            None
        } else {
            Some(p)
        },
        None => None,
    };
    assert(pointer == non_null(field_pointer(base, offset, c)));
    pointer
}

/// A recognised samp.dll: its base address and its build's layout.
#[derive(Clone, Copy, Debug)]
pub struct Samp {
    base: usize,
    layout: SampLayout,
}

/// samp.dll at `base` is recognised when its headers give an entry point
/// of a supported build.
pub open spec fn module_verdict(samp: Result<Samp, SampError>, base: usize, header: Result<u32, SampError>) -> bool {
    match header {
        Err(e) => samp == Err::<Samp, SampError>(e),
        Ok(entry_point) => match layout_spec(entry_point) {
            Some(layout) => samp matches Ok(s) && s.base_spec() == base && s.layout_spec() == layout,
            None => samp == Err::<Samp, SampError>(SampError::UnsupportedBuild(entry_point)),
        },
    }
}

impl Samp {
    pub closed spec fn base_spec(&self) -> usize {
        self.base
    }

    pub closed spec fn layout_spec(&self) -> SampLayout {
        self.layout
    }

    /// Recognises the samp.dll loaded at `base` by its PE entry point.
    pub fn from_module<M: ProcessMemory>(memory: &M, base: usize) -> (samp: Result<Samp, SampError>)
        ensures
            exists|dos_copy: Option<Seq<u8>>, lfanew_copy: Option<Seq<u8>>, signature_copy: Option<Seq<u8>>, entry_copy: Option<Seq<u8>>|
                pe_copies_from(memory, base, dos_copy, lfanew_copy, signature_copy, entry_copy)
                && module_verdict(samp, base, pe_copies_verdict(base, dos_copy, lfanew_copy, signature_copy, entry_copy)),
    {
        let (dos, lfanew, signature, entry) = pe_reads(memory, base);
        let header = check_pe_header(base, dos, lfanew, signature, entry);
        let samp = match header {
            Err(e) => Err(e),
            Ok(entry_point) => match layout_for_entry_point(entry_point) {
                Some(layout) => Ok(Samp { base, layout }),
                None => Err(SampError::UnsupportedBuild(entry_point)),
            },
        };
        assert(module_verdict(samp, base, pe_verdict(base, dos, lfanew, signature, entry)));
        samp
    }

    pub fn base(&self) -> (base: usize)
        ensures
            base == self.base_spec(),
    {
        self.base
    }

    pub fn version(&self) -> (version: SampVersion)
        ensures
            version == self.layout_spec().version,
    {
        self.layout.version
    }

    fn player_pool<M: ProcessMemory>(&self, memory: &M) -> (pool: Option<usize>)
        ensures
            exists|copies: PedCopies|
                player_pool_copies_from(memory, self.base_spec(), self.layout_spec(), copies)
                && pool == player_pool_verdict(self.base_spec(), self.layout_spec(), copies),
    {
        let net_game = read_non_null(memory, self.base, self.layout.samp_info_offset);
        let ghost c0 = choose|copy: Option<Seq<u8>>|
            field_copy_from(memory, self.base, self.layout.samp_info_offset, 4, copy)
            && net_game == non_null(field_pointer(self.base, self.layout.samp_info_offset, copy));
        let ghost mut c1: Option<Seq<u8>> = None;
        let ghost mut c2: Option<Seq<u8>> = None;
        let pool = match net_game {
            None => None,
            Some(n) => {
                let pools = read_non_null(memory, n, self.layout.net_game_pools_offset);
                proof {
                    c1 = choose|copy: Option<Seq<u8>>|
                        field_copy_from(memory, n, self.layout.net_game_pools_offset, 4, copy)
                        && pools == non_null(field_pointer(n, self.layout.net_game_pools_offset, copy));
                }
                match pools {
                    None => None,
                    Some(p) => {
                        let player_pool = read_non_null(memory, p, self.layout.pools_player_offset);
                        proof {
                            c2 = choose|copy: Option<Seq<u8>>|
                                field_copy_from(memory, p, self.layout.pools_player_offset, 4, copy)
                                && player_pool == non_null(field_pointer(p, self.layout.pools_player_offset, copy));
                        }
                        player_pool
                    },
                }
            },
        };
        assert(pool == player_pool_verdict(self.base_spec(), self.layout_spec(), (c0, c1, c2)));
        assert(player_pool_copies_from(memory, self.base_spec(), self.layout_spec(), (c0, c1, c2)));
        pool
    }

    /// The remote-player pointers of the pool, indexed by player ID.
    fn remote_player_entries<M: ProcessMemory>(&self, memory: &M, player_pool: usize) -> (entries: Option<Vec<usize>>)
        ensures
            entries matches Some(e) ==> e@.len() <= SAMP_MAX_PLAYERS,
            exists|copies: CopyPair|
                player_entries_copies_from(memory, player_pool, self.layout_spec(), copies)
                && opt_seq(entries) == player_entries_verdict(player_pool, self.layout_spec(), copies),
    {
        let largest = read_field::<u32, M>(memory, player_pool, self.layout.player_pool_largest_id_offset);
        let ghost cm = choose|copy: Option<Seq<u8>>|
            field_copy_from(memory, player_pool, self.layout.player_pool_largest_id_offset, 4, copy)
            && largest == field_value::<u32>(player_pool, self.layout.player_pool_largest_id_offset, copy);
        let ghost mut ce: Option<Seq<u8>> = None;
        let entries: Option<Vec<usize>> = match largest {
            None => None,
            Some(m) => if (m as usize) < SAMP_MAX_PLAYERS {
                match field_at(player_pool, self.layout.player_pool_remote_players_offset) {
                    None => None,
                    Some(array) => match player_entries_size(m as usize) {
                        None => None,
                        Some(size) => {
                            let bytes = read_bytes(memory, array, size);
                            proof {
                                ce = choose|copy: Option<Seq<u8>>|
                                    copy_from(memory, array, size, copy) && opt_bytes(bytes) == #[trigger] copy_verdict(array, size, copy);
                            }
                            match bytes {
                                None => None,
                                Some(b) => {
                                    let e = decode_player_entries(b.as_slice());
                                    assert(e@ =~= Seq::new(b@.len() / 4, |i: int| entry_at(b@, i)));
                                    Some(e)
                                },
                            }
                        },
                    },
                }
            } else {
                None
            },
        };
        assert(opt_seq(entries) == player_entries_verdict(player_pool, self.layout_spec(), (cm, ce)));
        assert(player_entries_copies_from(memory, player_pool, self.layout_spec(), (cm, ce)));
        entries
    }

    fn remote_gta_ped<M: ProcessMemory>(&self, memory: &M, remote: usize) -> (ped: Option<Option<usize>>)
        ensures
            ped matches Some(Some(address)) ==> address != 0,
            exists|copies: PedCopies|
                remote_ped_copies_from(memory, self.layout_spec(), remote, copies)
                && ped == remote_ped_verdict(self.layout_spec(), remote, copies),
    {
        let remote_player = read_field_pointer(memory, remote, self.layout.player_info_remote_player_offset);
        let ghost c0 = choose|copy: Option<Seq<u8>>|
            field_copy_from(memory, remote, self.layout.player_info_remote_player_offset, 4, copy)
            && remote_player == field_pointer(remote, self.layout.player_info_remote_player_offset, copy);
        let ghost mut c1: Option<Seq<u8>> = None;
        let ghost mut c2: Option<Seq<u8>> = None;
        let ped = match remote_player {
            None => None,
            Some(rp) => if rp == 0 {
                Some(None)
            } else {
                let samp_ped = read_field_pointer(memory, rp, self.layout.remote_player_samp_ped_offset);
                proof {
                    c1 = choose|copy: Option<Seq<u8>>|
                        field_copy_from(memory, rp, self.layout.remote_player_samp_ped_offset, 4, copy)
                        && samp_ped == field_pointer(rp, self.layout.remote_player_samp_ped_offset, copy);
                }
                match samp_ped {
                    None => None,
                    Some(sp) => {
                        let gta_ped = gta_ped_from_samp_ped(memory, sp);
                        proof {
                            c2 = choose|copy: Option<Seq<u8>>|
                                gta_ped_copy_from(memory, sp, copy) && gta_ped == gta_ped_copy_verdict(sp, copy);
                        }
                        gta_ped
                    },
                }
            },
        };
        assert(ped == remote_ped_verdict(self.layout_spec(), remote, (c0, c1, c2)));
        assert(remote_ped_copies_from(memory, self.layout_spec(), remote, (c0, c1, c2)));
        ped
    }

    /// The (player ID, GTA ped) pairs of the non-empty entries whose players
    /// have a GTA ped, in slot order.
    fn remote_peds<M: ProcessMemory>(&self, memory: &M, entries: &Vec<usize>) -> (peds: Option<Vec<(usize, usize)>>)
        requires
            entries@.len() <= SAMP_MAX_PLAYERS,
        ensures
            exists|copies: Seq<PedCopies>|
                remote_peds_copies_from(memory, self.layout_spec(), entries@, copies)
                && opt_seq(peds) == remote_peds_verdict(self.layout_spec(), entries@, copies, entries@.len()),
            peds matches Some(v) ==> forall|k: int| 0 <= k < v@.len() ==> (#[trigger] v@[k]).0 < entries@.len()
                && v@[k].1 != 0,
            peds matches Some(v) ==> forall|a: int, b: int| 0 <= a < b < v@.len() ==> (#[trigger] v@[a]).0
                < (#[trigger] v@[b]).0,
    {
        let ghost layout = self.layout_spec();
        let ghost none3: PedCopies = (None, None, None);
        let mut peds: Vec<(usize, usize)> = Vec::new();
        let ghost mut copies: Seq<PedCopies> = Seq::empty();
        let mut i: usize = 0;
        while i < entries.len()
            invariant
                i <= entries@.len(),
                entries@.len() <= SAMP_MAX_PLAYERS,
                layout == self.layout_spec(),
                copies.len() == i,
                remote_peds_verdict(layout, entries@, copies, i as nat) == Some(peds@),
                forall|k: int| 0 <= k < i && entries@[k] != 0 ==> remote_ped_copies_from(memory, layout, entries@[k], #[trigger] copies[k]),
                forall|k: int| 0 <= k < peds@.len() ==> (#[trigger] peds@[k]).0 < i && peds@[k].1 != 0,
                forall|a: int, b: int| 0 <= a < b < peds@.len() ==> (#[trigger] peds@[a]).0 < (#[trigger] peds@[b]).0,
            decreases entries@.len() - i,
        {
            let remote = entries[i];
            let ghost before = copies;
            let ghost prefix = peds@;
            let ghost mut step: PedCopies = none3;
            let mut found: Option<usize> = None;
            if remote != 0 {
                let ped = self.remote_gta_ped(memory, remote);
                proof {
                    step = choose|c: PedCopies| remote_ped_copies_from(memory, layout, remote, c) && ped == remote_ped_verdict(layout, remote, c);
                }
                match ped {
                    None => {
                        proof {
                            let full = before.push(step) + Seq::new((entries@.len() - i - 1) as nat, |k: int| none3);
                            lemma_remote_prefix(layout, entries@, before, full, i as nat);
                            assert(remote_peds_verdict(layout, entries@, full, (i + 1) as nat) is None);
                            lemma_remote_failure_stays(layout, entries@, full, (i + 1) as nat, entries@.len());
                            assert forall|k: int|
                                0 <= k < entries@.len() && entries@[k] != 0 && remote_peds_verdict(layout, entries@, full, k as nat) is Some
                                implies remote_ped_copies_from(memory, layout, entries@[k], #[trigger] full[k]) by {
                                if k < i {
                                    assert(full[k] == before[k]);
                                } else if k > i {
                                    lemma_remote_failure_stays(layout, entries@, full, (i + 1) as nat, k as nat);
                                } else {
                                    assert(full[k] == step);
                                }
                            }
                            assert(remote_peds_copies_from(memory, layout, entries@, full));
                        }
                        return None;
                    },
                    Some(p) => {
                        found = p;
                    },
                }
            }
            proof {
                copies = before.push(step);
                lemma_remote_prefix(layout, entries@, before, copies, i as nat);
                assert forall|k: int| 0 <= k < i + 1 && entries@[k] != 0 implies remote_ped_copies_from(
                    memory,
                    layout,
                    entries@[k],
                    #[trigger] copies[k],
                ) by {
                    if k < i {
                        assert(copies[k] == before[k]);
                    }
                }
            }
            match found {
                Some(address) => {
                    peds.push((i, address));
                    assert(peds@ =~= prefix.push((i, address)));
                },
                None => {},
            }
            i = i + 1;
        }
        assert(remote_peds_copies_from(memory, layout, entries@, copies));
        Some(peds)
    }

    /// The GTA ped of the local player object.
    fn gta_ped_from_local_player<M: ProcessMemory>(&self, memory: &M, local_player: usize) -> (ped: Option<Option<usize>>)
        ensures
            ped matches Some(Some(address)) ==> address != 0,
            exists|copies: CopyPair|
                local_player_gta_copies_from(memory, local_player, copies) && ped == local_player_gta_verdict(local_player, copies),
    {
        if local_player == 0 {
            assert(local_player_gta_verdict(local_player, (None, None)) == Some(None::<usize>));
            return Some(None);
        }
        let samp_ped = read_pointer(memory, local_player);
        let ghost c0 = choose|copy: Option<Seq<u8>>| copy_from(memory, local_player, 4, copy) && samp_ped == pointer_verdict(local_player, copy);
        let ghost mut c1: Option<Seq<u8>> = None;
        let ped = match samp_ped {
            None => None,
            Some(sp) => {
                let gta_ped = gta_ped_from_samp_ped(memory, sp);
                proof {
                    c1 = choose|copy: Option<Seq<u8>>| gta_ped_copy_from(memory, sp, copy) && gta_ped == gta_ped_copy_verdict(sp, copy);
                }
                gta_ped
            },
        };
        assert(ped == local_player_gta_verdict(local_player, (c0, c1)));
        assert(local_player_gta_copies_from(memory, local_player, (c0, c1)));
        ped
    }

    fn local_gta_ped<M: ProcessMemory>(&self, memory: &M, player_pool: usize) -> (ped: Option<Option<usize>>)
        ensures
            ped matches Some(Some(address)) ==> address != 0,
            exists|copies: PedCopies|
                local_gta_copies_from(memory, player_pool, self.layout_spec(), copies)
                && ped == local_gta_verdict(player_pool, self.layout_spec(), copies),
    {
        let local_player = read_field_pointer(memory, player_pool, self.layout.player_pool_local_player_offset);
        let ghost c0 = choose|copy: Option<Seq<u8>>|
            field_copy_from(memory, player_pool, self.layout.player_pool_local_player_offset, 4, copy)
            && local_player == field_pointer(player_pool, self.layout.player_pool_local_player_offset, copy);
        let ghost mut rest: CopyPair = (None, None);
        let ped = match local_player {
            None => None,
            Some(lp) => {
                let ped = self.gta_ped_from_local_player(memory, lp);
                proof {
                    rest = choose|c: CopyPair| local_player_gta_copies_from(memory, lp, c) && ped == local_player_gta_verdict(lp, c);
                }
                ped
            },
        };
        assert(ped == local_gta_verdict(player_pool, self.layout_spec(), (c0, rest.0, rest.1)));
        assert(local_gta_copies_from(memory, player_pool, self.layout_spec(), (c0, rest.0, rest.1)));
        ped
    }

    fn streamed_local_ped<M: ProcessMemory>(&self, memory: &M, player_pool: usize) -> (ped: Option<Option<StreamedPed>>)
        ensures
            ped matches Some(Some(p)) ==> p.is_local && p.address != 0 && p.player_id < SAMP_MAX_PLAYERS,
            ped matches Some(Some(p)) ==> name_read(memory, player_pool, self.layout_spec().player_pool_local_name_offset, p.name),
            exists|copies: PedCopies, id_copy: Option<Seq<u8>>|
                local_ped_copies_from(memory, player_pool, self.layout_spec(), copies, id_copy)
                && local_pair(ped) == local_ped_verdict(player_pool, self.layout_spec(), copies, id_copy),
    {
        let local_player = read_field_pointer(memory, player_pool, self.layout.player_pool_local_player_offset);
        let ghost c0 = choose|copy: Option<Seq<u8>>|
            field_copy_from(memory, player_pool, self.layout.player_pool_local_player_offset, 4, copy)
            && local_player == field_pointer(player_pool, self.layout.player_pool_local_player_offset, copy);
        let lp = match local_player {
            None => {
                assert(local_ped_verdict(player_pool, self.layout_spec(), (c0, None, None), None) is None);
                assert(local_ped_copies_from(memory, player_pool, self.layout_spec(), (c0, None, None), None));
                return None;
            },
            Some(lp) => lp,
        };
        if lp == 0 {
            assert(local_ped_verdict(player_pool, self.layout_spec(), (c0, None, None), None) == Some(None::<(usize, usize)>));
            assert(local_ped_copies_from(memory, player_pool, self.layout_spec(), (c0, None, None), None));
            return Some(None);
        }
        let player_id = read_field::<u16, M>(memory, player_pool, self.layout.player_pool_local_player_id_offset);
        let ghost ci = choose|copy: Option<Seq<u8>>|
            field_copy_from(memory, player_pool, self.layout.player_pool_local_player_id_offset, 2, copy)
            && player_id == field_value::<u16>(player_pool, self.layout.player_pool_local_player_id_offset, copy);
        let player_id = match player_id {
            None => {
                assert(local_ped_verdict(player_pool, self.layout_spec(), (c0, None, None), ci) is None);
                assert(local_ped_copies_from(memory, player_pool, self.layout_spec(), (c0, None, None), ci));
                return None;
            },
            Some(id) => id,
        };
        if player_id as usize >= SAMP_MAX_PLAYERS {
            assert(local_ped_verdict(player_pool, self.layout_spec(), (c0, None, None), ci) is None);
            assert(local_ped_copies_from(memory, player_pool, self.layout_spec(), (c0, None, None), ci));
            return None;
        }
        let gta_ped = self.gta_ped_from_local_player(memory, lp);
        let ghost rest = choose|c: CopyPair| local_player_gta_copies_from(memory, lp, c) && gta_ped == local_player_gta_verdict(lp, c);
        let ghost copies: PedCopies = (c0, rest.0, rest.1);
        let address = match gta_ped {
            None => {
                assert(local_ped_verdict(player_pool, self.layout_spec(), copies, ci) is None);
                assert(local_ped_copies_from(memory, player_pool, self.layout_spec(), copies, ci));
                return None;
            },
            Some(None) => {
                assert(local_ped_verdict(player_pool, self.layout_spec(), copies, ci) == Some(None::<(usize, usize)>));
                assert(local_ped_copies_from(memory, player_pool, self.layout_spec(), copies, ci));
                return Some(None);
            },
            Some(Some(address)) => address,
        };
        let name = read_msvc_string(memory, player_pool, self.layout.player_pool_local_name_offset);
        let ped = Some(Some(StreamedPed { player_id, is_local: true, name, address }));
        assert(local_pair(ped) == local_ped_verdict(player_pool, self.layout_spec(), copies, ci));
        assert(local_ped_copies_from(memory, player_pool, self.layout_spec(), copies, ci));
        ped
    }

    fn streamed_remote_peds<M: ProcessMemory>(&self, memory: &M, player_pool: usize) -> (peds: Option<Vec<StreamedPed>>)
        ensures
            peds matches Some(v) ==> forall|i: int| 0 <= i < v@.len() ==> !(#[trigger] v@[i]).is_local
                && v@[i].address != 0 && v@[i].player_id < SAMP_MAX_PLAYERS,
            peds matches Some(v) ==> forall|i: int, j: int| 0 <= i < j < v@.len() ==> (#[trigger] v@[i]).player_id
                < (#[trigger] v@[j]).player_id,
            exists|entry_copies: CopyPair, copies: Seq<PedCopies>|
                remote_scan_copies_from(memory, self.layout_spec(), player_pool, entry_copies, copies)
                && ped_pairs(peds) == remote_scan_verdict(self.layout_spec(), player_pool, entry_copies, copies)
                && (peds matches Some(v) ==> match player_entries_verdict(player_pool, self.layout_spec(), entry_copies) {
                    Some(entries) => remote_names_read(memory, self.layout_spec(), entries, v@),
                    None => false,
                }),
    {
        let entries = self.remote_player_entries(memory, player_pool);
        let ghost ec = choose|c: CopyPair|
            player_entries_copies_from(memory, player_pool, self.layout_spec(), c)
            && opt_seq(entries) == player_entries_verdict(player_pool, self.layout_spec(), c);
        let entries = match entries {
            None => {
                assert(remote_scan_verdict(self.layout_spec(), player_pool, ec, Seq::empty()) is None);
                assert(remote_scan_copies_from(memory, self.layout_spec(), player_pool, ec, Seq::empty()));
                return None;
            },
            Some(e) => e,
        };
        let found = self.remote_peds(memory, &entries);
        let ghost copies = choose|copies: Seq<PedCopies>|
            remote_peds_copies_from(memory, self.layout_spec(), entries@, copies)
            && opt_seq(found) == remote_peds_verdict(self.layout_spec(), entries@, copies, entries@.len());
        let found = match found {
            None => {
                assert(remote_scan_verdict(self.layout_spec(), player_pool, ec, copies) is None);
                assert(remote_scan_copies_from(memory, self.layout_spec(), player_pool, ec, copies));
                return None;
            },
            Some(f) => f,
        };
        let mut peds: Vec<StreamedPed> = Vec::new();
        let mut k: usize = 0;
        while k < found.len()
            invariant
                k <= found@.len(),
                peds@.len() == k,
                entries@.len() <= SAMP_MAX_PLAYERS,
                forall|j: int| 0 <= j < found@.len() ==> (#[trigger] found@[j]).0 < entries@.len() && found@[j].1 != 0,
                forall|a: int, b: int| 0 <= a < b < found@.len() ==> (#[trigger] found@[a]).0 < (#[trigger] found@[b]).0,
                forall|j: int| 0 <= j < k ==> (#[trigger] peds@[j]).player_id as usize == found@[j].0
                    && peds@[j].address == found@[j].1 && !peds@[j].is_local,
                forall|j: int| 0 <= j < k ==> name_read(
                    memory,
                    entries@[found@[j].0 as int],
                    self.layout_spec().remote_player_name_offset,
                    (#[trigger] peds@[j]).name,
                ),
            decreases found@.len() - k,
        {
            let (id, address) = found[k];
            let name = read_msvc_string(memory, entries[id], self.layout.remote_player_name_offset);
            let ghost before = peds@;
            peds.push(StreamedPed { player_id: id as u16, is_local: false, name, address });
            assert forall|j: int| 0 <= j < k + 1 implies name_read(
                memory,
                entries@[found@[j].0 as int],
                self.layout_spec().remote_player_name_offset,
                (#[trigger] peds@[j]).name,
            ) by {
                if j < k {
                    assert(peds@[j] == before[j]);
                }
            }
            k = k + 1;
        }
        assert(remote_names_read(memory, self.layout_spec(), entries@, peds@)) by {
            assert forall|i: int| 0 <= i < peds@.len() implies (#[trigger] peds@[i]).player_id < entries@.len() && name_read(
                memory,
                entries@[peds@[i].player_id as int],
                self.layout_spec().remote_player_name_offset,
                peds@[i].name,
            ) by {
                assert(peds@[i].player_id as usize == found@[i].0);
            }
        }
        assert(peds@.map_values(|p: StreamedPed| (p.player_id as usize, p.address)) =~= found@);
        assert(ped_pairs(Some(peds)) == remote_scan_verdict(self.layout_spec(), player_pool, ec, copies));
        assert(remote_scan_copies_from(memory, self.layout_spec(), player_pool, ec, copies));
        Some(peds)
    }

    /// Every streamed ped: the remote players in slot order, then the local
    /// player. `None` means a required structure could not be read.
    pub fn streamed_peds<M: ProcessMemory>(&self, memory: &M) -> (peds: Option<Vec<StreamedPed>>)
        ensures
            peds matches Some(v) ==> forall|i: int| 0 <= i < v@.len() ==> (#[trigger] v@[i]).address != 0
                && v@[i].player_id < SAMP_MAX_PLAYERS && (v@[i].is_local ==> i == v@.len() - 1),
            peds matches Some(v) ==> forall|i: int, j: int| 0 <= i < j < v@.len() && !(#[trigger] v@[j]).is_local
                ==> (#[trigger] v@[i]).player_id < v@[j].player_id,
            exists|pool_copies: PedCopies, entry_copies: CopyPair, remote_copies: Seq<PedCopies>, local_copies: PedCopies, id_copy: Option<Seq<u8>>|
                ped_scan_copies_from(
                    memory,
                    self.base_spec(),
                    self.layout_spec(),
                    pool_copies,
                    entry_copies,
                    remote_copies,
                    local_copies,
                    id_copy,
                ) && ped_pairs(peds) == ped_scan_verdict(
                    self.base_spec(),
                    self.layout_spec(),
                    pool_copies,
                    entry_copies,
                    remote_copies,
                    local_copies,
                    id_copy,
                ) && (peds matches Some(v) ==> {
                    &&& ped_names_read(memory, self.base_spec(), self.layout_spec(), pool_copies, entry_copies, v@)
                    &&& local_last(self.base_spec(), self.layout_spec(), pool_copies, local_copies, id_copy, v@)
                }),
    {
        let ghost base = self.base_spec();
        let ghost layout = self.layout_spec();
        let ghost none3: PedCopies = (None, None, None);
        let pool = self.player_pool(memory);
        let ghost pc = choose|c: PedCopies| player_pool_copies_from(memory, base, layout, c) && pool == player_pool_verdict(base, layout, c);
        let player_pool = match pool {
            None => {
                assert(ped_scan_verdict(base, layout, pc, (None, None), Seq::empty(), none3, None) is None);
                assert(ped_scan_copies_from(memory, base, layout, pc, (None, None), Seq::empty(), none3, None));
                return None;
            },
            Some(p) => p,
        };
        let remote = self.streamed_remote_peds(memory, player_pool);
        let ghost (rc_entries, rc_copies) = choose|e: CopyPair, c: Seq<PedCopies>|
            remote_scan_copies_from(memory, layout, player_pool, e, c) && ped_pairs(remote) == remote_scan_verdict(layout, player_pool, e, c)
            && (remote matches Some(v) ==> match player_entries_verdict(player_pool, layout, e) {
                Some(entries) => remote_names_read(memory, layout, entries, v@),
                None => false,
            });
        let mut peds = match remote {
            None => {
                assert(ped_scan_verdict(base, layout, pc, rc_entries, rc_copies, none3, None) is None);
                assert(ped_scan_copies_from(memory, base, layout, pc, rc_entries, rc_copies, none3, None));
                return None;
            },
            Some(v) => v,
        };
        let ghost remote_pairs = ped_pairs(Some(peds));
        let local = self.streamed_local_ped(memory, player_pool);
        let ghost (lc_copies, lc_id) = choose|c: PedCopies, i: Option<Seq<u8>>|
            local_ped_copies_from(memory, player_pool, layout, c, i) && local_pair(local) == local_ped_verdict(player_pool, layout, c, i);
        match local {
            None => {
                assert(ped_scan_verdict(base, layout, pc, rc_entries, rc_copies, lc_copies, lc_id) is None);
                assert(ped_scan_copies_from(memory, base, layout, pc, rc_entries, rc_copies, lc_copies, lc_id));
                return None;
            },
            Some(Some(p)) => {
                let ghost before = peds@;
                peds.push(p);
                assert(peds@.map_values(|q: StreamedPed| (q.player_id as usize, q.address)) =~= before.map_values(
                    |q: StreamedPed| (q.player_id as usize, q.address),
                ).push((p.player_id as usize, p.address)));
                assert forall|i: int| 0 <= i < peds@.len() implies if (#[trigger] peds@[i]).is_local {
                    name_read(memory, player_pool, layout.player_pool_local_name_offset, peds@[i].name)
                } else {
                    match player_entries_verdict(player_pool, layout, rc_entries) {
                        Some(entries) => peds@[i].player_id < entries.len() && name_read(
                            memory,
                            entries[peds@[i].player_id as int],
                            layout.remote_player_name_offset,
                            peds@[i].name,
                        ),
                        None => false,
                    }
                } by {
                    if i < before.len() {
                        assert(peds@[i] == before[i]);
                    }
                }
            },
            Some(None) => {
                assert forall|i: int| 0 <= i < peds@.len() implies if (#[trigger] peds@[i]).is_local {
                    name_read(memory, player_pool, layout.player_pool_local_name_offset, peds@[i].name)
                } else {
                    match player_entries_verdict(player_pool, layout, rc_entries) {
                        Some(entries) => peds@[i].player_id < entries.len() && name_read(
                            memory,
                            entries[peds@[i].player_id as int],
                            layout.remote_player_name_offset,
                            peds@[i].name,
                        ),
                        None => false,
                    }
                } by {}
            },
        }
        assert(ped_names_read(memory, base, layout, pc, rc_entries, peds@));
        assert(local_last(base, layout, pc, lc_copies, lc_id, peds@));
        assert(ped_pairs(Some(peds)) == ped_scan_verdict(base, layout, pc, rc_entries, rc_copies, lc_copies, lc_id));
        assert(ped_scan_copies_from(memory, base, layout, pc, rc_entries, rc_copies, lc_copies, lc_id));
        Some(peds)
    }

    /// The GTA ped of every SA-MP player, for a complete liveness scan.
    /// `None` means the scan is incomplete and must not authorize cleanup.
    pub fn all_peds<M: ProcessMemory>(&self, memory: &M) -> (peds: Option<Vec<usize>>)
        ensures
            peds matches Some(v) ==> forall|i: int| 0 <= i < v@.len() ==> #[trigger] v@[i] != 0,
            exists|pool_copies: PedCopies, entry_copies: CopyPair, remote_copies: Seq<PedCopies>, local_copies: PedCopies|
                all_peds_copies_from(memory, self.base_spec(), self.layout_spec(), pool_copies, entry_copies, remote_copies, local_copies)
                && opt_seq(peds) == all_peds_verdict(self.base_spec(), self.layout_spec(), pool_copies, entry_copies, remote_copies, local_copies),
    {
        let ghost base = self.base_spec();
        let ghost layout = self.layout_spec();
        let ghost none3: PedCopies = (None, None, None);
        let pool = self.player_pool(memory);
        let ghost pc = choose|c: PedCopies| player_pool_copies_from(memory, base, layout, c) && pool == player_pool_verdict(base, layout, c);
        let player_pool = match pool {
            None => {
                assert(all_peds_verdict(base, layout, pc, (None, None), Seq::empty(), none3) is None);
                assert(all_peds_copies_from(memory, base, layout, pc, (None, None), Seq::empty(), none3));
                return None;
            },
            Some(p) => p,
        };
        let entries = self.remote_player_entries(memory, player_pool);
        let ghost ec = choose|c: CopyPair|
            player_entries_copies_from(memory, player_pool, layout, c) && opt_seq(entries) == player_entries_verdict(player_pool, layout, c);
        let entries = match entries {
            None => {
                assert(all_peds_verdict(base, layout, pc, ec, Seq::empty(), none3) is None);
                assert(all_peds_copies_from(memory, base, layout, pc, ec, Seq::empty(), none3));
                return None;
            },
            Some(e) => e,
        };
        let found = self.remote_peds(memory, &entries);
        let ghost copies = choose|copies: Seq<PedCopies>|
            remote_peds_copies_from(memory, layout, entries@, copies)
            && opt_seq(found) == remote_peds_verdict(layout, entries@, copies, entries@.len());
        let found = match found {
            None => {
                assert(all_peds_verdict(base, layout, pc, ec, copies, none3) is None);
                assert(all_peds_copies_from(memory, base, layout, pc, ec, copies, none3));
                return None;
            },
            Some(f) => f,
        };
        let mut peds: Vec<usize> = Vec::new();
        let mut k: usize = 0;
        while k < found.len()
            invariant
                k <= found@.len(),
                peds@.len() == k,
                forall|j: int| 0 <= j < found@.len() ==> (#[trigger] found@[j]).1 != 0,
                forall|j: int| 0 <= j < k ==> #[trigger] peds@[j] == found@[j].1,
            decreases found@.len() - k,
        {
            peds.push(found[k].1);
            k = k + 1;
        }
        assert(peds@ =~= found@.map_values(|p: (usize, usize)| p.1));
        let local = self.local_gta_ped(memory, player_pool);
        let ghost lc = choose|c: PedCopies| local_gta_copies_from(memory, player_pool, layout, c) && local == local_gta_verdict(player_pool, layout, c);
        match local {
            None => {
                assert(all_peds_verdict(base, layout, pc, ec, copies, lc) is None);
                assert(all_peds_copies_from(memory, base, layout, pc, ec, copies, lc));
                return None;
            },
            Some(Some(address)) => {
                peds.push(address);
            },
            Some(None) => {},
        }
        assert(opt_seq(Some(peds)) == all_peds_verdict(base, layout, pc, ec, copies, lc));
        assert(all_peds_copies_from(memory, base, layout, pc, ec, copies, lc));
        Some(peds)
    }
}

/// The PE header fields, the SA-MP player limit, the SA-MP ped's GTA
/// pointer and the MSVC x86 `std::string` layout the scan reads.
pub proof fn lemma_documented_constants()
    ensures
        SAMP_MAX_PLAYERS == 0x3EC,
        SAMP_PED_GTA_PED == 0x40,
        MSVC_STRING_LENGTH == 0x10,
        MSVC_STRING_CAPACITY == 0x14,
        MSVC_STRING_SSO_CAPACITY == 0xF,
        MAX_NAME_LENGTH == 0x18,
        DOS_SIGNATURE == 0x5A4D,
        PE_SIGNATURE == 0x4550,
        PE_LFANEW_OFFSET == 0x3C,
        PE_ENTRY_POINT_OFFSET == 0x28,
        MAX_PE_HEADER_OFFSET == 0x10000,
{
}

/// A PE image gives its entry point exactly when its DOS header starts
/// with "MZ" (0x5A4D), the PE header offset read at +0x3C is at most
/// 0x10000, the PE header there starts with "PE" (0x4550) and its entry
/// point at +0x28 was read, all within the address space; the result is
/// that entry point. An unreadable DOS header is reported as such.
pub proof fn lemma_pe_header_rules(
    base: usize,
    dos: Option<u16>,
    lfanew: Option<u32>,
    signature: Option<u32>,
    entry: Option<u32>,
)
    ensures
        pe_verdict(base, dos, lfanew, signature, entry) is Ok <==> (dos == Some(0x5A4Du16) && base + 0x3C <= usize::MAX
            && lfanew is Some && lfanew->0 <= 0x10000 && base + lfanew->0 <= usize::MAX && signature == Some(0x4550u32)
            && base + lfanew->0 + 0x28 <= usize::MAX && entry is Some),
        pe_verdict(base, dos, lfanew, signature, entry) matches Ok(e) ==> entry == Some(e),
        dos is None ==> pe_verdict(base, dos, lfanew, signature, entry) == Err::<u32, SampError>(
            SampError::UnreadableDosHeader,
        ),
{
}

/// A player name is the UTF-8 text of a string of 1 to 24 bytes whose
/// capacity covers its length, read whole; small strings (capacity up to
/// 15) keep their text inline, larger ones behind the object's first field.
pub proof fn lemma_player_name_rules(
    name_address: usize,
    length: Option<usize>,
    capacity: Option<usize>,
    pointer_copy: Option<Seq<u8>>,
    text: Option<Seq<u8>>,
)
    ensures
        msvc_name_verdict(length, capacity, text) is Some <==> (length is Some && capacity is Some && 1 <= length->0
            <= 24 && capacity->0 >= length->0 && text is Some && text->0.len() == length->0 && valid_utf8(text->0)),
        msvc_name_verdict(length, capacity, text) is Some ==> msvc_name_verdict(length, capacity, text)->0
            == decode_utf8(text->0),
        length is Some && capacity is Some && capacity->0 <= 15 ==> msvc_text_address(
            name_address,
            length->0,
            capacity->0,
            pointer_copy,
        ) == Some(name_address),
        length is Some && capacity is Some && capacity->0 > 15 ==> msvc_text_address(
            name_address,
            length->0,
            capacity->0,
            pointer_copy,
        ) == pointer_verdict(name_address, pointer_copy),
{
}

/// The remote entries are one pointer per player ID up to the largest ID
/// read, which must be below 1004, SA-MP's player limit.
pub proof fn lemma_player_entries_rules(pool: usize, layout: SampLayout, copies: CopyPair)
    ensures
        player_entries_verdict(pool, layout, copies) is Some ==> {
            &&& 1 <= player_entries_verdict(pool, layout, copies)->0.len() <= 1004
            &&& field_value::<u32>(pool, layout.player_pool_largest_id_offset, copies.0) == Some(
                (player_entries_verdict(pool, layout, copies)->0.len() - 1) as u32,
            )
        },
{
    if player_entries_verdict(pool, layout, copies) is Some {
        let m = field_value::<u32>(pool, layout.player_pool_largest_id_offset, copies.0)->0;
        let array = field_address(pool, layout.player_pool_remote_players_offset)->0;
        let bytes = copy_verdict(array, ((m + 1) * 4) as usize, copies.1)->0;
        assert(bytes.len() == (m + 1) * 4);
        assert(bytes.len() / 4 == m + 1);
    }
}

} // verus!
