use vstd::prelude::*;

verus! {

broadcast use vstd::array::group_array_axioms;

/// Number of bytes of a character set.
pub const CHARSET_BYTES: usize = 1024;

/// Number of bytes of playfield data of one mode line.
pub const LINE_DATA_BYTES: usize = 48;

/// Number of bytes of graphics of one player on one mode line.
pub const PLAYER_BYTES: usize = 16;

/// Copies a slice of exactly `N` bytes into an array.
fn copy_bytes<const N: usize>(src: &[u8]) -> (out: [u8; N])
    requires
        src@.len() == N,
    ensures
        out@ == src@,
{
    let mut out = [0u8; N];
    let mut i: usize = 0;
    while i < N
        invariant
            i <= N,
            src@.len() == N,
            out@.len() == N,
            forall|j: int| 0 <= j < i ==> out@[j] == src@[j],
        decreases N - i,
    {
        out[i] = src[i];
        i = i + 1;
    }
    assert(out@ =~= src@);
    out
}

/// The 1024 bytes of a character set, as the line shader reads them.
#[derive(Clone, Copy, Debug)]
pub struct Charset {
    pub data: [u8; 1024],
}

impl Charset {
    /// Builds a character set from a slice of exactly 1024 bytes, kept in order.
    pub fn new(src: &[u8]) -> (res: Self)
        requires
            src@.len() == CHARSET_BYTES,
        ensures
            res.data@ == src@,
    {
        Charset { data: copy_bytes::<1024>(src) }
    }
}


/// The bytes of one mode line: 48 bytes of playfield data, then 16 bytes of
/// graphics for each of the four players.
#[derive(Clone, Copy, Debug)]
pub struct LineData {
    pub data: [u8; 48],
    pub player0: [u8; 16],
    pub player1: [u8; 16],
    pub player2: [u8; 16],
    pub player3: [u8; 16],
}

impl LineData {
    /// Builds a line from 48 bytes of playfield data and 16 bytes for each
    /// player, each kept in order.
    pub fn new(src: &[u8], player0: &[u8], player1: &[u8], player2: &[u8], player3: &[u8]) -> (res:
        Self)
        requires
            src@.len() == LINE_DATA_BYTES,
            player0@.len() == PLAYER_BYTES,
            player1@.len() == PLAYER_BYTES,
            player2@.len() == PLAYER_BYTES,
            player3@.len() == PLAYER_BYTES,
        ensures
            res.data@ == src@,
            res.player0@ == player0@,
            res.player1@ == player1@,
            res.player2@ == player2@,
            res.player3@ == player3@,
    {
        LineData {
            data: copy_bytes::<48>(src),
            player0: copy_bytes::<16>(player0),
            player1: copy_bytes::<16>(player1),
            player2: copy_bytes::<16>(player2),
            player3: copy_bytes::<16>(player3),
        }
    }
}

/// Width in pixels of a player for a SIZEP register value: its two low bits
/// select normal (16), double (32) or quadruple (64) width, and the value 2
/// means normal width.
pub open spec fn spec_player_size(sizep: u8) -> u32 {
    if sizep % 4 == 1 {
        32
    } else if sizep % 4 == 3 {
        64
    } else {
        16
    }
}

/// Width in pixels of a player for a SIZEP register value.
pub fn player_size(sizep: u8) -> (size: u32)
    ensures
        size == spec_player_size(sizep),
        sizep % 4 == 1 ==> size == 32,
        sizep % 4 == 3 ==> size == 64,
        sizep % 4 == 0 || sizep % 4 == 2 ==> size == 16,
{
    assert(sizep & 3 == sizep % 4) by (bit_vector);
    match sizep & 3 {
        1 => 32,
        3 => 64,
        _ => 16,
    }
}

/// Normal width is 16 pixels, for SIZEP values 0 and 2 alike; double width
/// (1) is twice it and quadruple width (3) four times it.
pub proof fn lemma_player_size_scale(sizep: u8)
    ensures
        sizep % 4 == 0 || sizep % 4 == 2 ==> spec_player_size(sizep) == 16,
        sizep % 4 == 1 ==> spec_player_size(sizep) == 2 * 16,
        sizep % 4 == 3 ==> spec_player_size(sizep) == 4 * 16,
{
}

/// The width of a player depends on the two low bits of SIZEP alone.
pub proof fn lemma_player_size_low_bits(a: u8, b: u8)
    requires
        a % 4 == b % 4,
    ensures
        spec_player_size(a) == spec_player_size(b),
{
}

/// A player is 16, 32 or 64 pixels wide, whatever SIZEP holds.
pub proof fn lemma_player_size_values(sizep: u8)
    ensures
        spec_player_size(sizep) == 16 || spec_player_size(sizep) == 32 || spec_player_size(sizep)
            == 64,
{
}

/// The GTIA state that the line shader reads. `regs` holds three colour
/// rows: the playfield colours for modes that use COLPF2 as the fourth colour,
/// the same with COLPF3, and the four player colours. Player positions and
/// widths are pixel counts.
#[derive(Clone, Copy, Debug)]
pub struct GTIAColors {
    pub regs: [[u32; 4]; 3],
    pub player_pos: [u32; 4],
    pub player_size: [u32; 4],
    pub prior: u32,
}

impl Default for GTIAColors {
    /// All registers, positions and widths zero.
    fn default() -> (res: Self)
        ensures
            forall|i: int, j: int| 0 <= i < 3 && 0 <= j < 4 ==> res.regs@[i]@[j] == 0,
            forall|i: int| 0 <= i < 4 ==> res.player_pos@[i] == 0 && res.player_size@[i] == 0,
            res.prior == 0,
    {
        GTIAColors { regs: [[0u32; 4]; 3], player_pos: [0u32; 4], player_size: [0u32; 4], prior: 0 }
    }
}

impl GTIAColors {
    /// Gathers the colour, position, size and priority registers.
    pub fn new(
        colbk: u8,
        colpf0: u8,
        colpf1: u8,
        colpf2: u8,
        colpf3: u8,
        colpm0: u8,
        colpm1: u8,
        colpm2: u8,
        colpm3: u8,
        hposp0: u8,
        hposp1: u8,
        hposp2: u8,
        hposp3: u8,
        sizep0: u8,
        sizep1: u8,
        sizep2: u8,
        sizep3: u8,
        prior: u8,
    ) -> (res: Self)
        ensures
            res.regs@.len() == 3,
            res.regs@[0]@ == seq![colbk as u32, colpf0 as u32, colpf1 as u32, colpf2 as u32],
            res.regs@[1]@ == seq![colbk as u32, colpf0 as u32, colpf1 as u32, colpf3 as u32],
            res.regs@[2]@ == seq![colpm0 as u32, colpm1 as u32, colpm2 as u32, colpm3 as u32],
            res.player_pos@ == seq![hposp0 as u32, hposp1 as u32, hposp2 as u32, hposp3 as u32],
            res.player_size@ == seq![
                spec_player_size(sizep0),
                spec_player_size(sizep1),
                spec_player_size(sizep2),
                spec_player_size(sizep3),
            ],
            res.prior == prior as u32,
    {
        let res = GTIAColors {
            regs: [
                [colbk as u32, colpf0 as u32, colpf1 as u32, colpf2 as u32],
                [colbk as u32, colpf0 as u32, colpf1 as u32, colpf3 as u32],
                [colpm0 as u32, colpm1 as u32, colpm2 as u32, colpm3 as u32],
            ],
            player_pos: [hposp0 as u32, hposp1 as u32, hposp2 as u32, hposp3 as u32],
            player_size: [
                player_size(sizep0),
                player_size(sizep1),
                player_size(sizep2),
                player_size(sizep3),
            ],
            prior: prior as u32,
        };
        assert(res.regs@[0]@ =~= seq![colbk as u32, colpf0 as u32, colpf1 as u32, colpf2 as u32]);
        assert(res.regs@[1]@ =~= seq![colbk as u32, colpf0 as u32, colpf1 as u32, colpf3 as u32]);
        assert(res.regs@[2]@ =~= seq![colpm0 as u32, colpm1 as u32, colpm2 as u32, colpm3 as u32]);
        assert(res.player_pos@ =~= seq![hposp0 as u32, hposp1 as u32, hposp2 as u32, hposp3 as u32]);
        res
    }
}

} // verus!
