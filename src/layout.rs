//! Where the game keeps what the engine samples, and how its raw bytes decode
//! into values. All values are little-endian, as the game stores them.
use vstd::prelude::*;
use vstd::string::*;
use crate::asl::Address;

verus! {

/// The executable the engine attaches to.
pub const PROCESS_NAME: &'static str = "BioShockInfinite.exe";

/// Where the game's main module is loaded.
pub const BASE_MODULE_OFFSET: u64 = 0x0040_0000;

/// Module offset of the byte that turns 1 once the start-up logos are over.
pub const READY_FLAG_OFFSET: u64 = 0x0135_697C;

/// Module offset of the byte that is nonzero once a key has been pressed.
pub const TRIGGER_OFFSET: u64 = 0x013D_2AA2;

/// Module offset of the pointer to the map-loading state.
pub const LOAD_STATE_PTR_OFFSET: u64 = 0x0141_54E8;

/// Displacement of the loading flag from the loading state.
pub const LOAD_FLAG_DISPLACEMENT: u64 = 0x4;

/// The loading flag holds this bit pattern (that of the float 1.0) while no
/// map is loading.
pub const NOT_LOADING: u32 = 0x3F80_0000;

/// Module offset of the pointer to the UI state.
pub const UI_PTR_OFFSET: u64 = 0x0141_5A30;

/// Displacement of the overlay list descriptor from the UI state.
pub const OVERLAYS_DISPLACEMENT: u64 = 0x124;

/// The largest overlay count taken for real; a larger one is a torn read.
pub const MAX_OVERLAYS: i32 = 8;

/// Length in UTF-16 units of the loading-screen overlay's name, without the
/// terminator that the game counts in its stored length.
pub const OVERLAY_NAME_LEN: u32 = 0x36;

/// Name of the overlay that is shown on loading screens.
pub const OVERLAY_NAME: &'static str = "GFXScriptReferenced.GameThreadLoadingScreen_Data_Oct22";

/// Ticks per second that the engine asks the host for.
pub const TICK_RATE: u64 = 500;

/// The absolute address of module offset `a`.
pub fn abs_addr(a: u64) -> (r: Address)
    requires
        a + BASE_MODULE_OFFSET <= u64::MAX,
    ensures
        r.0 == a + BASE_MODULE_OFFSET,
{
    Address(a + BASE_MODULE_OFFSET)
}

/// The UTF-16 units of an ASCII string, one for each byte.
pub open spec fn wide_of(s: Seq<u8>) -> Seq<u16> {
    s.map_values(|b: u8| b as u16)
}

/// Widens each byte of an ASCII string to one UTF-16 unit.
pub fn wide_str(s: &[u8]) -> (r: Vec<u16>)
    ensures
        r@ == wide_of(s@),
{
    let mut r: Vec<u16> = Vec::with_capacity(s.len());
    let mut i: usize = 0;
    while i < s.len()
        invariant
            i <= s@.len(),
            r@ == wide_of(s@.subrange(0, i as int)),
        decreases s@.len() - i,
    {
        r.push(s[i] as u16);
        i += 1;
        proof {
            assert(s@.subrange(0, i as int) == s@.subrange(0, i - 1) + seq![s@[i - 1]]);
        }
    }
    proof {
        assert(s@.subrange(0, s@.len() as int) == s@);
    }
    r
}

/// The loading-screen overlay's name as the game stores it.
pub open spec fn overlay_name_wide() -> Seq<u16> {
    wide_of(OVERLAY_NAME.spec_bytes())
}

/// The loading-screen overlay's name in UTF-16 units.
pub fn overlay_name() -> (r: Vec<u16>)
    ensures
        r@ == overlay_name_wide(),
        r@.len() == OVERLAY_NAME_LEN,
{
    proof {
        reveal_strlit("GFXScriptReferenced.GameThreadLoadingScreen_Data_Oct22");
        broadcast use vstd::string::group_string_axioms;
        assert(is_ascii(OVERLAY_NAME));
    }
    let bytes = OVERLAY_NAME.as_bytes_vec();
    wide_str(bytes.as_slice())
}

/// The 32-bit value whose little-endian bytes start at `at` in `b`.
pub open spec fn u32_at(b: Seq<u8>, at: int) -> u32 {
    (b[at] as int + b[at + 1] as int * 0x100 + b[at + 2] as int * 0x1_0000
        + b[at + 3] as int * 0x100_0000) as u32
}

/// The 16-bit value whose little-endian bytes start at `at` in `b`.
pub open spec fn u16_at(b: Seq<u8>, at: int) -> u16 {
    (b[at] as int + b[at + 1] as int * 0x100) as u16
}

/// Decodes the little-endian 32-bit value at `at`.
pub fn read_u32(b: &[u8], at: usize) -> (r: u32)
    requires
        at + 4 <= b@.len(),
    ensures
        r == u32_at(b@, at as int),
{
    let b0 = b[at] as u32;
    let b1 = b[at + 1] as u32;
    let b2 = b[at + 2] as u32;
    let b3 = b[at + 3] as u32;
    assert(b0 + b1 * 0x100 + b2 * 0x1_0000 + b3 * 0x100_0000 <= u32::MAX) by (nonlinear_arith)
        requires
            b0 <= 255,
            b1 <= 255,
            b2 <= 255,
            b3 <= 255,
    ;
    b0 + b1 * 0x100 + b2 * 0x1_0000 + b3 * 0x100_0000
}

/// The UTF-16 units of a little-endian byte string of even length.
pub open spec fn wide_units(b: Seq<u8>) -> Seq<u16> {
    Seq::new(b.len() / 2, |i: int| u16_at(b, 2 * i))
}

/// Decodes a little-endian UTF-16 string; a trailing odd byte is ignored.
pub fn read_wide(b: &[u8]) -> (r: Vec<u16>)
    ensures
        r@ == wide_units(b@),
{
    let len = b.len();
    let n = len / 2;
    let mut r: Vec<u16> = Vec::with_capacity(n);
    let mut i: usize = 0;
    while i < n
        invariant
            len == b@.len(),
            n == len / 2,
            2 * n <= len,
            i <= n,
            r@.len() == i,
            forall|j: int| 0 <= j < i ==> r@[j] == u16_at(b@, 2 * j),
        decreases n - i,
    {
        assert(2 * i + 1 < b@.len());
        let lo = b[2 * i] as u16;
        let hi = b[2 * i + 1] as u16;
        assert(lo + hi * 0x100 <= u16::MAX) by (nonlinear_arith)
            requires
                lo <= 255,
                hi <= 255,
        ;
        r.push(lo + hi * 0x100);
        i += 1;
    }
    assert(r@ == wide_units(b@));
    r
}

/// The overlay list descriptor: where the array of overlay pointers is and
/// how many entries it has.
#[derive(Debug, Clone, Copy, PartialEq, Eq, Structural)]
pub struct Overlays {
    pub ptr: u32,
    pub count: i32,
}

/// One overlay record: where its name is and the name's stored length.
#[derive(Debug, Clone, Copy, PartialEq, Eq, Structural)]
pub struct Overlay {
    pub name_ptr: u32,
    pub name_len: u32,
}

/// Bytes that an overlay list descriptor takes.
pub const OVERLAYS_SIZE: usize = 8;

/// Bytes that an overlay record takes.
pub const OVERLAY_SIZE: usize = 8;

/// The descriptor whose bytes start `b`.
pub open spec fn overlays_of(b: Seq<u8>) -> Overlays {
    Overlays { ptr: u32_at(b, 0), count: u32_at(b, 4) as i32 }
}

/// The record whose bytes start `b`.
pub open spec fn overlay_of(b: Seq<u8>) -> Overlay {
    Overlay { name_ptr: u32_at(b, 0), name_len: u32_at(b, 4) }
}

impl Overlays {
    /// Decodes a descriptor from its bytes.
    pub fn decode(b: &[u8]) -> (r: Overlays)
        requires
            b@.len() >= OVERLAYS_SIZE,
        ensures
            r == overlays_of(b@),
    {
        Overlays { ptr: read_u32(b, 0), count: read_u32(b, 4) as i32 }
    }

    /// Whether the count is one the engine trusts: from zero to the bound.
    pub open spec fn count_in_bounds(self) -> bool {
        0 <= self.count <= MAX_OVERLAYS
    }
}

impl Overlay {
    /// Decodes a record from its bytes.
    pub fn decode(b: &[u8]) -> (r: Overlay)
        requires
            b@.len() >= OVERLAY_SIZE,
        ensures
            r == overlay_of(b@),
    {
        Overlay { name_ptr: read_u32(b, 0), name_len: read_u32(b, 4) }
    }

    /// Whether the stored length, less the terminator, is that of the
    /// loading-screen overlay's name. The subtraction wraps, so a length of
    /// zero never matches.
    pub open spec fn may_be_loading_screen(self) -> bool {
        (self.name_len as int - 1) % 0x1_0000_0000 == OVERLAY_NAME_LEN as int
    }

    /// Executable form of `may_be_loading_screen`.
    pub fn has_loading_screen_len(&self) -> (r: bool)
        ensures
            r == self.may_be_loading_screen(),
    {
        self.name_len.wrapping_sub(1) == OVERLAY_NAME_LEN
    }
}

/// Whether the name bytes read from an overlay spell the loading-screen
/// overlay's name.
pub open spec fn is_loading_screen_name(b: Seq<u8>) -> bool {
    wide_units(b) == overlay_name_wide()
}

/// Compares name bytes read from an overlay with the loading-screen
/// overlay's name, unit by unit.
pub fn matches_loading_screen_name(b: &[u8]) -> (r: bool)
    ensures
        r == is_loading_screen_name(b@),
{
    let got = read_wide(b);
    let want = overlay_name();
    if got.len() != want.len() {
        return false;
    }
    let mut i: usize = 0;
    while i < got.len()
        invariant
            got@ == wide_units(b@),
            want@ == overlay_name_wide(),
            got@.len() == want@.len(),
            i <= got@.len(),
            forall|j: int| 0 <= j < i ==> got@[j] == want@[j],
        decreases got@.len() - i,
    {
        if got[i] != want[i] {
            assert(got@[i as int] != want@[i as int]);
            return false;
        }
        i += 1;
    }
    assert(got@ == want@);
    true
}

} // verus!
