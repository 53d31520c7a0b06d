//! Guarded SA-MP 0.3.7-R1 event hooks: the fingerprints their targets must
//! carry, and the refresh requests they coalesce.

use crate::memory::{copy_from, copy_verdict, field_address, field_at, opt_bytes, read_bytes, ProcessMemory};
use crate::refresh::{set_bits, take_bits};
use crate::samp::Samp;
use std::sync::atomic::AtomicU8;
use crate::text::{hex, hex_number, hex_number_spec, hex_spec};
use vstd::prelude::*;
use vstd::string::*;

verus! {

pub const R1_VERSION_MARKER_OFFSET: usize = 0xBABE;
/// `CRemotePlayer::Spawn` returns after SA-MP created the remote GTA ped.
pub const REMOTE_PLAYER_SPAWN_OFFSET: usize = 0x13890;
/// The R1 prologue loads SA-MP's `CGame*` from `samp.dll + 0x21A10C`.
pub const REMOTE_PLAYER_SPAWN_GAME_OFFSET: usize = 0x21A10C;
/// The RPC handler applies a server-issued skin change before returning.
pub const SET_PLAYER_SKIN_OFFSET: usize = 0x15860;

pub const REMOTE_PLAYER_SPAWN_REFRESH: u8 = 1;
pub const SET_PLAYER_SKIN_REFRESH: u8 = 2;

pub open spec fn r1_version_marker_spec() -> Seq<u8> {
    seq![0xF8u8, 0x03, 0x6A, 0x00, 0x40, 0x50, 0x51, 0x8D, 0x4C, 0x24]
}

pub open spec fn remote_player_spawn_prologue() -> Seq<u8> {
    seq![0x56u8, 0x8B, 0xF1, 0x8B, 0x0D, 0x0C, 0xA1, 0x21, 0x10, 0xE8, 0xD2, 0x86, 0x08, 0x00, 0x85, 0xC0]
}

pub open spec fn set_player_skin_signature_spec() -> Seq<u8> {
    seq![0xE9u8, 0xA2, 0xB6, 0x27, 0x00, 0x0F, 0x90, 0xC5, 0x52, 0xC7, 0x44, 0x24, 0x08, 0x40, 0x00, 0x00]
}

pub fn r1_version_marker() -> (marker: Vec<u8>)
    ensures
        marker@ == r1_version_marker_spec(),
{
    let marker = vec![0xF8u8, 0x03, 0x6A, 0x00, 0x40, 0x50, 0x51, 0x8D, 0x4C, 0x24];
    assert(marker@ =~= r1_version_marker_spec());
    marker
}

pub fn set_player_skin_signature() -> (signature: Vec<u8>)
    ensures
        signature@ == set_player_skin_signature_spec(),
{
    let signature = vec![0xE9u8, 0xA2, 0xB6, 0x27, 0x00, 0x0F, 0x90, 0xC5, 0x52, 0xC7, 0x44, 0x24, 0x08, 0x40, 0x00, 0x00];
    assert(signature@ =~= set_player_skin_signature_spec());
    signature
}

/// Why the hooks were not installed.
#[derive(Debug)]
pub enum HookError {
    /// A target address computed from samp.dll's base overflowed.
    AddressOverflow { name: &'static str },
    /// The relocated `CGame*` does not fit the 32-bit address space.
    PointerOutOfRange,
    /// The target's bytes could not be read.
    Unreadable { name: &'static str, address: usize },
    /// The target's bytes differ from the fingerprint.
    Mismatch { name: &'static str, address: usize, expected: Vec<u8>, found: Vec<u8> },
}

/// `0x` and an address with at least eight uppercase hexadecimal digits.
pub open spec fn address_text(address: usize) -> Seq<char> {
    "0x"@ + hex_number_spec(address as nat, 8)
}

pub(crate) fn address_string(address: usize) -> (text: String)
    ensures
        text@ == address_text(address),
{
    let mut text = String::from_str("0x");
    let number = hex_number(address as u64, 8);
    text.append(number.as_str());
    text
}

/// The log text of each reason the hooks were not installed.
pub open spec fn hook_error_text(error: HookError) -> Seq<char> {
    match error {
        HookError::AddressOverflow { name } => name@ + " address overflowed"@,
        HookError::PointerOutOfRange => "CRemotePlayer::Spawn CGame pointer does not fit in x86 address space"@,
        HookError::Unreadable { name, address } => "could not read "@ + name@ + " at "@ + address_text(address),
        HookError::Mismatch { name, address, expected, found } => name@ + " bytes differ at "@ + address_text(address)
            + " (expected "@ + hex_spec(expected@) + ", found "@ + hex_spec(found@) + ")"@,
    }
}

impl HookError {
    pub fn message(&self) -> (text: String)
        ensures
            text@ == hook_error_text(*self),
    {
        match self {
            HookError::AddressOverflow { name } => {
                let mut text = String::from_str(name);
                text.append(" address overflowed");
                text
            },
            HookError::PointerOutOfRange => String::from_str(
                "CRemotePlayer::Spawn CGame pointer does not fit in x86 address space",
            ),
            HookError::Unreadable { name, address } => {
                let mut text = String::from_str("could not read ");
                text.append(name);
                text.append(" at ");
                let at = address_string(*address);
                text.append(at.as_str());
                text
            },
            HookError::Mismatch { name, address, expected, found } => {
                let mut text = String::from_str(name);
                text.append(" bytes differ at ");
                let at = address_string(*address);
                text.append(at.as_str());
                text.append(" (expected ");
                let e = hex(expected.as_slice());
                text.append(e.as_str());
                text.append(", found ");
                let f = hex(found.as_slice());
                text.append(f.as_str());
                text.append(")");
                text
            },
        }
    }
}

/// The R1 `CRemotePlayer::Spawn` prologue of samp.dll loaded at `base`: its
/// `CGame*` operand is the relocated `base + 0x21A10C`, little-endian.
pub open spec fn relocated_spawn_signature(base: usize) -> Seq<u8> {
    let p = base + REMOTE_PLAYER_SPAWN_GAME_OFFSET;
    remote_player_spawn_prologue().take(5) + seq![
        (p % 0x100) as u8,
        ((p / 0x100) % 0x100) as u8,
        ((p / 0x10000) % 0x100) as u8,
        ((p / 0x1000000) % 0x100) as u8,
    ] + remote_player_spawn_prologue().skip(9)
}

/// The places `hook_targets` checks in samp.dll at `base`, each with the
/// name it reports and the bytes it expects there.
/// A copy that `memory` may give of the range at `address` holds exactly
/// the expected fingerprint.
pub open spec fn site_matches<M: ProcessMemory>(memory: &M, address: usize, expected: Seq<u8>) -> bool {
    exists|copy: Option<Seq<u8>>|
        copy_from(memory, address, expected.len() as usize, copy)
        && #[trigger] copy_verdict(address, expected.len() as usize, copy) == Some(expected)
}

/// A failed fingerprint check names one of the sites and is what the check
/// answers for a copy that `memory` may give of that site's range.
pub open spec fn site_failure<M: ProcessMemory>(memory: &M, base: usize, error: HookError) -> bool {
    match error {
        HookError::Unreadable { name, address } => exists|expected: Seq<u8>, copy: Option<Seq<u8>>|
            hook_site(base, name, address, expected) && copy_from(memory, address, expected.len() as usize, copy)
            && bytes_checked(Err(error), name, address, expected, #[trigger] copy_verdict(address, expected.len() as usize, copy)),
        HookError::Mismatch { name, address, .. } => exists|expected: Seq<u8>, copy: Option<Seq<u8>>|
            hook_site(base, name, address, expected) && copy_from(memory, address, expected.len() as usize, copy)
            && bytes_checked(Err(error), name, address, expected, #[trigger] copy_verdict(address, expected.len() as usize, copy)),
        _ => true,
    }
}

pub open spec fn hook_site(base: usize, name: &'static str, address: usize, expected: Seq<u8>) -> bool {
    ||| (name@ == "0.3.7-R1 version marker"@ && address == base + R1_VERSION_MARKER_OFFSET
        && expected == r1_version_marker_spec())
    ||| (name@ == "CRemotePlayer::Spawn"@ && address == base + REMOTE_PLAYER_SPAWN_OFFSET
        && expected == relocated_spawn_signature(base))
    ||| (name@ == "ScrSetPlayerSkin"@ && address == base + SET_PLAYER_SKIN_OFFSET
        && expected == set_player_skin_signature_spec())
}

/// The spawn prologue of a samp.dll loaded at `samp_base`: the fingerprint
/// with its absolute `CGame*` relocated to that base.
pub fn remote_player_spawn_signature(samp_base: usize) -> (signature: Result<Vec<u8>, HookError>)
    ensures
        match signature {
            Ok(s) => samp_base + REMOTE_PLAYER_SPAWN_GAME_OFFSET <= u32::MAX && s@ == relocated_spawn_signature(samp_base),
            Err(HookError::AddressOverflow { name }) => samp_base + REMOTE_PLAYER_SPAWN_GAME_OFFSET > usize::MAX
                && name@ == "CRemotePlayer::Spawn CGame pointer"@,
            Err(HookError::PointerOutOfRange) => samp_base + REMOTE_PLAYER_SPAWN_GAME_OFFSET <= usize::MAX
                && samp_base + REMOTE_PLAYER_SPAWN_GAME_OFFSET > u32::MAX,
            Err(_) => false,
        },
{
    let game_pointer = match field_at(samp_base, REMOTE_PLAYER_SPAWN_GAME_OFFSET) {
        Some(p) => p,
        None => {
            return Err(HookError::AddressOverflow { name: "CRemotePlayer::Spawn CGame pointer" });
        },
    };
    if game_pointer > 0xFFFF_FFFF {
        return Err(HookError::PointerOutOfRange);
    }
    let p = game_pointer;
    let mut signature: Vec<u8> = vec![0x56u8, 0x8B, 0xF1, 0x8B, 0x0D];
    signature.push((p % 0x100) as u8);
    signature.push(((p / 0x100) % 0x100) as u8);
    signature.push(((p / 0x10000) % 0x100) as u8);
    signature.push(((p / 0x1000000) % 0x100) as u8);
    signature.push(0xE8);
    signature.push(0xD2);
    signature.push(0x86);
    signature.push(0x08);
    signature.push(0x00);
    signature.push(0x85);
    signature.push(0xC0);
    assert(signature@ =~= relocated_spawn_signature(samp_base));
    Ok(signature)
}

/// What the fingerprint check answers for what `read_bytes` gave of the
/// target: unreadable without a copy, accepted for exactly the expected
/// bytes, and otherwise a mismatch that carries both.
pub open spec fn bytes_checked(checked: Result<(), HookError>, name: &'static str, address: usize, expected: Seq<u8>, found: Option<Seq<u8>>) -> bool {
    match found {
        None => checked matches Err(HookError::Unreadable { name: n, address: a }) && n == name && a == address,
        Some(f) => if f == expected {
            checked is Ok
        } else {
            checked matches Err(HookError::Mismatch { name: n, address: a, expected: e, found: g }) && n == name
                && a == address && e@ == expected && g@ == f
        },
    }
}

/// A located target counts as its check.
pub open spec fn target_checked(target: Result<usize, HookError>) -> Result<(), HookError> {
    match target {
        Ok(_) => Ok(()),
        Err(e) => Err(e),
    }
}

/// Accepts the target only when exactly the expected bytes are there.
pub fn validate_bytes<M: ProcessMemory>(memory: &M, address: usize, expected: &[u8], name: &'static str) -> (checked: Result<(), HookError>)
    ensures
        checked matches Err(HookError::Unreadable { name: n, address: a }) ==> n == name && a == address,
        checked matches Err(HookError::Mismatch { name: n, address: a, expected: e, found }) ==> n == name
            && a == address && e@ == expected@ && found@ != expected@ && found@.len() == expected@.len(),
        (address == 0 || expected@.len() == 0) ==> checked matches Err(HookError::Unreadable { .. }),
        !(checked matches Err(HookError::AddressOverflow { .. })),
        !(checked matches Err(HookError::PointerOutOfRange)),
        exists|copy: Option<Seq<u8>>|
            copy_from(memory, address, expected@.len() as usize, copy)
            && bytes_checked(checked, name, address, expected@, #[trigger] copy_verdict(address, expected@.len() as usize, copy)),
{
    let size: usize = expected.len();
    let read = read_bytes(memory, address, size);
    let ghost c = choose|copy: Option<Seq<u8>>| copy_from(memory, address, size, copy) && opt_bytes(read) == #[trigger] copy_verdict(address, size, copy);
    let actual = match read {
        Some(bytes) => bytes,
        None => {
            let checked = Err(HookError::Unreadable { name, address });
            assert(size == expected@.len() as usize);
            assert(bytes_checked(checked, name, address, expected@, copy_verdict(address, expected@.len() as usize, c)));
            return checked;
        },
    };
    let checked = if crate::gta::bytes_eq(actual.as_slice(), expected) {
        Ok(())
    } else {
        Err(HookError::Mismatch { name, address, expected: vstd::slice::slice_to_vec(expected), found: actual })
    };
    assert(size == expected@.len() as usize);
    assert(bytes_checked(checked, name, address, expected@, copy_verdict(address, expected@.len() as usize, c)));
    checked
}

/// The address of a hook target inside samp.dll, once its fingerprint matched.
pub fn target_with_signature<M: ProcessMemory>(memory: &M, samp: &Samp, offset: usize, signature: &[u8], name: &'static str) -> (target: Result<usize, HookError>)
    ensures
        target matches Ok(address) ==> address == samp.base_spec() + offset,
        target matches Err(HookError::AddressOverflow { name: n }) ==> samp.base_spec() + offset > usize::MAX && n == name,
        target matches Err(HookError::Unreadable { name: n, address }) ==> n == name && address == samp.base_spec() + offset,
        target matches Err(HookError::Mismatch { name: n, address, expected, found }) ==> n == name
            && address == samp.base_spec() + offset && expected@ == signature@ && found@ != signature@
            && found@.len() == signature@.len(),
        !(target matches Err(HookError::PointerOutOfRange)),
        field_address(samp.base_spec(), offset) matches Some(address) ==> exists|copy: Option<Seq<u8>>|
            copy_from(memory, address, signature@.len() as usize, copy)
            && bytes_checked(target_checked(target), name, address, signature@, #[trigger] copy_verdict(address, signature@.len() as usize, copy)),
{
    let address = match field_at(samp.base(), offset) {
        Some(a) => a,
        None => {
            return Err(HookError::AddressOverflow { name });
        },
    };
    match validate_bytes(memory, address, signature, name) {
        Ok(()) => Ok(address),
        Err(e) => Err(e),
    }
}

/// The two hook targets of a recognised R1 samp.dll.
#[derive(Debug)]
pub struct HookTargets {
    pub remote_player_spawn: usize,
    pub set_player_skin: usize,
}

/// Checks the R1 version marker and both targets' fingerprints before any
/// hook may be placed.
pub fn hook_targets<M: ProcessMemory>(memory: &M, samp: &Samp) -> (targets: Result<HookTargets, HookError>)
    ensures
        targets matches Ok(t) ==> t.remote_player_spawn == samp.base_spec() + REMOTE_PLAYER_SPAWN_OFFSET
            && t.set_player_skin == samp.base_spec() + SET_PLAYER_SKIN_OFFSET,
        targets matches Err(HookError::AddressOverflow { name }) ==> {
            ||| (name@ == "SA-MP version marker"@ && samp.base_spec() + R1_VERSION_MARKER_OFFSET > usize::MAX)
            ||| (name@ == "CRemotePlayer::Spawn CGame pointer"@
                && samp.base_spec() + REMOTE_PLAYER_SPAWN_GAME_OFFSET > usize::MAX)
            ||| (name@ == "CRemotePlayer::Spawn"@ && samp.base_spec() + REMOTE_PLAYER_SPAWN_OFFSET > usize::MAX)
            ||| (name@ == "ScrSetPlayerSkin"@ && samp.base_spec() + SET_PLAYER_SKIN_OFFSET > usize::MAX)
        },
        targets matches Err(HookError::PointerOutOfRange) ==> samp.base_spec() + REMOTE_PLAYER_SPAWN_GAME_OFFSET > u32::MAX,
        targets matches Err(HookError::Unreadable { name, address }) ==> exists|e: Seq<u8>| hook_site(samp.base_spec(), name, address, e),
        targets matches Err(HookError::Mismatch { name, address, expected, found }) ==>
            hook_site(samp.base_spec(), name, address, expected@) && found@ != expected@ && found@.len() == expected@.len(),
        targets matches Err(e) ==> site_failure(memory, samp.base_spec(), e),
        targets is Ok ==> {
            &&& site_matches(memory, (samp.base_spec() + R1_VERSION_MARKER_OFFSET) as usize, r1_version_marker_spec())
            &&& site_matches(
                memory,
                (samp.base_spec() + REMOTE_PLAYER_SPAWN_OFFSET) as usize,
                relocated_spawn_signature(samp.base_spec()),
            )
            &&& site_matches(memory, (samp.base_spec() + SET_PLAYER_SKIN_OFFSET) as usize, set_player_skin_signature_spec())
        },
{
    let marker_address = match field_at(samp.base(), R1_VERSION_MARKER_OFFSET) {
        Some(a) => a,
        None => {
            return Err(HookError::AddressOverflow { name: "SA-MP version marker" });
        },
    };
    let marker = r1_version_marker();
    match validate_bytes(memory, marker_address, marker.as_slice(), "0.3.7-R1 version marker") {
        Ok(()) => {},
        Err(e) => {
            assert(hook_site(samp.base_spec(), "0.3.7-R1 version marker", marker_address, r1_version_marker_spec()));
            return Err(e);
        },
    }
    let spawn_signature = match remote_player_spawn_signature(samp.base()) {
        Ok(s) => s,
        Err(e) => {
            return Err(e);
        },
    };
    let remote_player_spawn = match target_with_signature(
        memory,
        samp,
        REMOTE_PLAYER_SPAWN_OFFSET,
        spawn_signature.as_slice(),
        "CRemotePlayer::Spawn",
    ) {
        Ok(a) => a,
        Err(e) => {
            assert(hook_site(
                samp.base_spec(),
                "CRemotePlayer::Spawn",
                (samp.base_spec() + REMOTE_PLAYER_SPAWN_OFFSET) as usize,
                relocated_spawn_signature(samp.base_spec()),
            ));
            return Err(e);
        },
    };
    let skin_signature = set_player_skin_signature();
    let set_player_skin = match target_with_signature(
        memory,
        samp,
        SET_PLAYER_SKIN_OFFSET,
        skin_signature.as_slice(),
        "ScrSetPlayerSkin",
    ) {
        Ok(a) => a,
        Err(e) => {
            assert(hook_site(
                samp.base_spec(),
                "ScrSetPlayerSkin",
                (samp.base_spec() + SET_PLAYER_SKIN_OFFSET) as usize,
                set_player_skin_signature_spec(),
            ));
            return Err(e);
        },
    };
    Ok(HookTargets { remote_player_spawn, set_player_skin })
}

/// What the coalesced hook bits ask the frame thread to refresh after.
pub open spec fn hook_reason_spec(reasons: u8) -> Option<Seq<char>> {
    let bits = reasons & 3;
    if bits == 0 {
        None
    } else if bits == REMOTE_PLAYER_SPAWN_REFRESH {
        Some("a remote player spawn"@)
    } else if bits == SET_PLAYER_SKIN_REFRESH {
        Some("a server skin change"@)
    } else {
        Some("a remote player spawn and a server skin change"@)
    }
}

pub fn refresh_reason(reasons: u8) -> (reason: Option<&'static str>)
    ensures
        match reason {
            Some(text) => hook_reason_spec(reasons) == Some(text@),
            None => hook_reason_spec(reasons) is None,
        },
{
    let bits = reasons & (REMOTE_PLAYER_SPAWN_REFRESH | SET_PLAYER_SKIN_REFRESH);
    assert(REMOTE_PLAYER_SPAWN_REFRESH | SET_PLAYER_SKIN_REFRESH == 3) by (bit_vector);
    if bits == 0 {
        None
    } else if bits == REMOTE_PLAYER_SPAWN_REFRESH {
        Some("a remote player spawn")
    } else if bits == SET_PLAYER_SKIN_REFRESH {
        Some("a server skin change")
    } else {
        Some("a remote player spawn and a server skin change")
    }
}

/// Consumes every hook request since the previous frame and describes it.
pub fn take_refresh_request(reasons: &AtomicU8) -> (reason: Option<&'static str>)
    ensures
        exists|bits: u8| match reason {
            Some(text) => hook_reason_spec(bits) == Some(text@),
            None => hook_reason_spec(bits) is None,
        },
{
    let bits = take_bits(reasons);
    refresh_reason(bits)
}

/// Records a request from a hook.
pub fn request_refresh(reasons: &AtomicU8, reason: u8) {
    set_bits(reasons, reason)
}

/// The R1 fingerprints: the version marker and the `ScrSetPlayerSkin`
/// prologue are the bytes an unmodified SA-MP 0.3.7-R1 samp.dll holds at
/// base + 0xBABE and base + 0x15860, and the `CRemotePlayer::Spawn`
/// prologue at base + 0x13890 holds its bytes with the absolute `CGame`
/// pointer relocated: bytes 5 to 8 are base + 0x21A10C, little-endian.
pub proof fn lemma_r1_fingerprints(base: usize)
    ensures
        R1_VERSION_MARKER_OFFSET == 0xBABE,
        REMOTE_PLAYER_SPAWN_OFFSET == 0x13890,
        SET_PLAYER_SKIN_OFFSET == 0x15860,
        REMOTE_PLAYER_SPAWN_GAME_OFFSET == 0x21A10C,
        r1_version_marker_spec() == seq![0xF8u8, 0x03, 0x6A, 0x00, 0x40, 0x50, 0x51, 0x8D, 0x4C, 0x24],
        set_player_skin_signature_spec() == seq![
            0xE9u8, 0xA2, 0xB6, 0x27, 0x00, 0x0F, 0x90, 0xC5, 0x52, 0xC7, 0x44, 0x24, 0x08, 0x40, 0x00, 0x00,
        ],
        relocated_spawn_signature(base).len() == 16,
        relocated_spawn_signature(base).take(5) == seq![0x56u8, 0x8B, 0xF1, 0x8B, 0x0D],
        relocated_spawn_signature(base).skip(9) == seq![0xE8u8, 0xD2, 0x86, 0x08, 0x00, 0x85, 0xC0],
        base + 0x21A10C <= 0xFFFF_FFFF ==> relocated_spawn_signature(base)[5] + relocated_spawn_signature(base)[6] * 0x100
            + relocated_spawn_signature(base)[7] * 0x10000 + relocated_spawn_signature(base)[8] * 0x1000000 == base
            + 0x21A10C,
{
    let s = relocated_spawn_signature(base);
    assert(s.take(5) =~= seq![0x56u8, 0x8B, 0xF1, 0x8B, 0x0D]);
    assert(s.skip(9) =~= seq![0xE8u8, 0xD2, 0x86, 0x08, 0x00, 0x85, 0xC0]);
    if base + 0x21A10C <= 0xFFFF_FFFF {
        let p: int = base + 0x21A10C;
        assert(s[5] == p % 0x100);
        assert(s[6] == (p / 0x100) % 0x100);
        assert(s[7] == (p / 0x10000) % 0x100);
        assert(s[8] == (p / 0x1000000) % 0x100);
        assert((p % 0x100) + ((p / 0x100) % 0x100) * 0x100 + ((p / 0x10000) % 0x100) * 0x10000 + ((p / 0x1000000) % 0x100)
            * 0x1000000 == p) by (nonlinear_arith)
            requires
                0 <= p <= 0xFFFF_FFFF,
        ;
    }
}

/// The refresh-reason bits that the hook targets raise.
pub proof fn lemma_documented_constants()
    ensures
        REMOTE_PLAYER_SPAWN_REFRESH == 0x1,
        SET_PLAYER_SKIN_REFRESH == 0x2,
{
}

/// A description names exactly the hook requests whose bits are set: a
/// remote player spawn (bit 0) and a server skin change (bit 1); other bits
/// are ignored and no request gives none.
pub proof fn lemma_hook_reason_names_each_request(reasons: u8)
    ensures
        hook_reason_spec(reasons) == (if reasons & 1 == 0 && reasons & 2 == 0 {
            None
        } else if reasons & 2 == 0 {
            Some("a remote player spawn"@)
        } else if reasons & 1 == 0 {
            Some("a server skin change"@)
        } else {
            Some("a remote player spawn and a server skin change"@)
        }),
{
    let r = reasons;
    assert(((r & 3) == 0) == (r & 1 == 0 && r & 2 == 0)) by (bit_vector);
    assert(((r & 3) == 1) == (r & 1 != 0 && r & 2 == 0)) by (bit_vector);
    assert(((r & 3) == 2) == (r & 1 == 0 && r & 2 != 0)) by (bit_vector);
}

} // verus!
