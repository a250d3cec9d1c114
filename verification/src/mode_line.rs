use vstd::prelude::*;
use crate::render_resources::{Charset, GTIAColors, LineData, CHARSET_BYTES, LINE_DATA_BYTES, PLAYER_BYTES};

verus! {

broadcast use vstd::slice::group_slice_axioms;

/// Bytes per unit of CHBASE: the character base counts in pages.
pub const CHARSET_PAGE_BYTES: usize = 256;

/// What ANTIC reports for one line of its display list: the mode, the first
/// scan line it covers, its size in pixels and scan lines, how many bytes it
/// reads, where they lie in memory, the character base page, the fine
/// horizontal scroll, and whether a display list interrupt follows it.
#[derive(Clone, Copy, Debug)]
pub struct ModeLineDescr {
    pub mode: u8,
    pub scan_line: usize,
    pub width: usize,
    pub height: usize,
    pub n_bytes: usize,
    pub data_offset: usize,
    pub chbase: u8,
    pub hscrol: u8,
    pub dli: bool,
}

impl ModeLineDescr {
    /// A mode line is drawn only when it reads bytes and has a width and a height.
    pub open spec fn spec_is_drawn(&self) -> bool {
        self.n_bytes != 0 && self.width != 0 && self.height != 0
    }

    /// Where the character set of the line starts in memory.
    pub open spec fn spec_charset_offset(&self) -> int {
        self.chbase * CHARSET_PAGE_BYTES
    }

    /// Whether the line is drawn.
    pub fn is_drawn(&self) -> (drawn: bool)
        ensures
            drawn == self.spec_is_drawn(),
            drawn == (self.n_bytes != 0 && self.width != 0 && self.height != 0),
    {
        !(self.n_bytes == 0 || self.width == 0 || self.height == 0)
    }

    /// Where the character set of the line starts in memory.
    pub fn charset_offset(&self) -> (offset: usize)
        ensures
            offset == self.spec_charset_offset(),
            offset == self.chbase * 256,
    {
        (self.chbase as usize) * CHARSET_PAGE_BYTES
    }
}

/// Every display list line that reads bytes and has a width and a height is
/// drawn, one scan line high included; a line lacking any of the three is not.
pub proof fn lemma_drawn_exactly_when_non_empty(m: ModeLineDescr)
    ensures
        m.n_bytes != 0 && m.width != 0 && m.height != 0 ==> m.spec_is_drawn(),
        m.n_bytes == 0 ==> !m.spec_is_drawn(),
        m.width == 0 ==> !m.spec_is_drawn(),
        m.height == 0 ==> !m.spec_is_drawn(),
{
}

/// The character set of a mode line starts at page CHBASE, whatever the
/// line's mode, size or place: two lines with the same CHBASE read the same
/// character set, and one CHBASE higher reads 256 bytes higher.
pub proof fn lemma_charset_offset_is_chbase_page(a: ModeLineDescr, b: ModeLineDescr)
    ensures
        a.spec_charset_offset() == a.chbase * 256,
        a.chbase == b.chbase ==> a.spec_charset_offset() == b.spec_charset_offset(),
        a.chbase + 1 == b.chbase ==> b.spec_charset_offset() == a.spec_charset_offset() + 256,
{
}

/// Everything the line shader reads for one drawn mode line.
#[derive(Clone, Copy, Debug)]
pub struct AnticLine {
    pub line_width: u32,
    pub mode: u32,
    pub hscrol: u32,
    pub data: LineData,
    pub gtia_colors: GTIAColors,
    pub charset: Charset,
}

/// The memory that a drawn mode line reads lies inside `ram`.
pub open spec fn spec_line_in_ram(mode_line: ModeLineDescr, ram: Seq<u8>) -> bool {
    &&& mode_line.data_offset + LINE_DATA_BYTES <= ram.len()
    &&& mode_line.spec_charset_offset() + CHARSET_BYTES <= ram.len()
}

/// Gathers the shader input of one mode line: nothing for a line that is not
/// drawn; otherwise its 48 data bytes and its character set, both read from
/// `ram`, the graphics of the four players on the line, the GTIA registers,
/// and its width, mode and scroll.
pub fn create_mode_line(
    mode_line: &ModeLineDescr,
    ram: &[u8],
    player0: &[u8],
    player1: &[u8],
    player2: &[u8],
    player3: &[u8],
    gtia_colors: GTIAColors,
) -> (res: Option<AnticLine>)
    requires
        mode_line.spec_is_drawn() ==> {
            &&& spec_line_in_ram(*mode_line, ram@)
            &&& player0@.len() == PLAYER_BYTES
            &&& player1@.len() == PLAYER_BYTES
            &&& player2@.len() == PLAYER_BYTES
            &&& player3@.len() == PLAYER_BYTES
        },
    ensures
        res is Some <==> mode_line.spec_is_drawn(),
        res is Some <==> (mode_line.n_bytes != 0 && mode_line.width != 0 && mode_line.height
            != 0),
        res matches Some(line) ==> {
            let data_offset = mode_line.data_offset as int;
            let charset_offset = mode_line.spec_charset_offset();
            &&& line.data.data@ == ram@.subrange(data_offset, data_offset + LINE_DATA_BYTES)
            &&& line.data.player0@ == player0@
            &&& line.data.player1@ == player1@
            &&& line.data.player2@ == player2@
            &&& line.data.player3@ == player3@
            &&& line.charset.data@ == ram@.subrange(charset_offset, charset_offset + CHARSET_BYTES)
            &&& line.charset.data@ == ram@.subrange(
                mode_line.chbase * 256,
                mode_line.chbase * 256 + 1024,
            )
            &&& line.gtia_colors == gtia_colors
            &&& line.line_width == #[verifier::truncate] (mode_line.width as u32)
            &&& line.mode == mode_line.mode as u32
            &&& line.hscrol == mode_line.hscrol as u32
        },
{
    if !mode_line.is_drawn() {
        return None;
    }
    assert(ram@.len() == ram.len());
    let data_offset = mode_line.data_offset;
    let line_bytes = vstd::slice::slice_subrange(ram, data_offset, data_offset + LINE_DATA_BYTES);
    let data = LineData::new(line_bytes, player0, player1, player2, player3);
    let charset_offset = mode_line.charset_offset();
    let charset_bytes = vstd::slice::slice_subrange(
        ram,
        charset_offset,
        charset_offset + CHARSET_BYTES,
    );
    let charset = Charset::new(charset_bytes);
    Some(
        AnticLine {
            mode: mode_line.mode as u32,
            gtia_colors,
            line_width: #[verifier::truncate] (mode_line.width as u32),
            hscrol: mode_line.hscrol as u32,
            data,
            charset,
        },
    )
}

/// The two bytes that the DLIST register pair receives for a display list
/// address: the low byte first, then the high byte.
pub fn dlist_register_bytes(dlist: u16) -> (res: (u8, u8))
    ensures
        res.0 == dlist % 256,
        res.1 == dlist / 256,
{
    assert((dlist & 0xff) == dlist % 256) by (bit_vector);
    assert((dlist >> 8) == dlist / 256) by (bit_vector);
    ((dlist & 0xff) as u8, (dlist >> 8) as u8)
}

/// Writing a display list address into the DLIST register pair loses nothing:
/// the low byte plus 256 times the high byte is the address again.
pub proof fn lemma_dlist_register_bytes_round_trip(dlist: u16, lo: u8, hi: u8)
    requires
        lo == dlist % 256,
        hi == dlist / 256,
    ensures
        lo + 256 * hi == dlist,
{
}

} // verus!
