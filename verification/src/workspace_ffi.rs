use vstd::prelude::*;

verus! {

/// A position in the text of a document as the iOS text input system sees it
/// (UIKit's `UITextPosition`).
#[derive(Debug)]
pub struct CTextPosition {
    /// Used to represent a non-existent position.
    pub none: bool,
    /// A grapheme index.
    pub pos: usize,
}

impl Default for CTextPosition {
    fn default() -> (position: Self)
        ensures
            !position.none,
            position.pos == 0,
    {
        CTextPosition { none: false, pos: 0 }
    }
}

impl CTextPosition {
    /// The document character offset of this position.
    pub fn into_offset(self) -> (offset: usize)
        ensures
            offset == self.pos,
    {
        self.pos
    }
}

/// A range of text as the iOS text input system sees it (UIKit's
/// `UITextRange`).
#[derive(Debug)]
pub struct CTextRange {
    /// Used to represent a non-existent range.
    pub none: bool,
    pub start: CTextPosition,
    pub end: CTextPosition,
}

impl Default for CTextRange {
    fn default() -> (range: Self)
        ensures
            !range.none,
            !range.start.none && range.start.pos == 0,
            !range.end.none && range.end.pos == 0,
    {
        CTextRange { none: false, start: CTextPosition::default(), end: CTextPosition::default() }
    }
}

impl CTextRange {
    /// The document character offsets of the start and the end of this range
    /// (the region between these two locations).
    pub fn into_offsets(self) -> (offsets: (usize, usize))
        ensures
            offsets == (self.start.pos, self.end.pos),
    {
        (self.start.into_offset(), self.end.into_offset())
    }
}

/// A direction of text layout, as exchanged with the host app.
#[derive(Clone, Copy, Debug, PartialEq, Eq, Structural)]
pub enum CTextLayoutDirection {
    Right,
    Left,
    Up,
    Down,
}

/// The integer that represents a layout direction across the C interface.
pub open spec fn layout_direction_value(direction: CTextLayoutDirection) -> u32 {
    match direction {
        CTextLayoutDirection::Right => 2,
        CTextLayoutDirection::Left => 3,
        CTextLayoutDirection::Up => 4,
        CTextLayoutDirection::Down => 5,
    }
}

impl CTextLayoutDirection {
    /// The integer that represents this direction across the C interface.
    pub fn to_c_value(&self) -> (value: u32)
        ensures
            value == layout_direction_value(*self),
    {
        match self {
            CTextLayoutDirection::Right => 2,
            CTextLayoutDirection::Left => 3,
            CTextLayoutDirection::Up => 4,
            CTextLayoutDirection::Down => 5,
        }
    }

    /// The direction an integer of the C interface represents, if any.
    pub fn from_c_value(value: u32) -> (direction: Option<Self>)
        ensures
            direction matches Some(d) ==> layout_direction_value(d) == value,
            direction is None <==> !(2 <= value <= 5),
    {
        match value {
            2 => Some(CTextLayoutDirection::Right),
            3 => Some(CTextLayoutDirection::Left),
            4 => Some(CTextLayoutDirection::Up),
            5 => Some(CTextLayoutDirection::Down),
            _ => None,
        }
    }
}

/// Each layout direction has its own integer across the C interface.
pub proof fn lemma_layout_direction_values_distinct(a: CTextLayoutDirection, b: CTextLayoutDirection)
    ensures
        layout_direction_value(a) == layout_direction_value(b) <==> a == b,
{
}

/// The granularity of a text unit, as exchanged with the host app.
#[derive(Clone, Copy, Debug, PartialEq, Eq, Structural)]
pub enum CTextGranularity {
    Character,
    Word,
    Sentence,
    Paragraph,
    Line,
    Document,
}

/// The integer that represents a granularity across the C interface.
pub open spec fn granularity_value(granularity: CTextGranularity) -> u32 {
    match granularity {
        CTextGranularity::Character => 0,
        CTextGranularity::Word => 1,
        CTextGranularity::Sentence => 2,
        CTextGranularity::Paragraph => 3,
        CTextGranularity::Line => 4,
        CTextGranularity::Document => 5,
    }
}

impl CTextGranularity {
    /// The integer that represents this granularity across the C interface.
    pub fn to_c_value(&self) -> (value: u32)
        ensures
            value == granularity_value(*self),
    {
        match self {
            CTextGranularity::Character => 0,
            CTextGranularity::Word => 1,
            CTextGranularity::Sentence => 2,
            CTextGranularity::Paragraph => 3,
            CTextGranularity::Line => 4,
            CTextGranularity::Document => 5,
        }
    }

    /// The granularity an integer of the C interface represents, if any.
    pub fn from_c_value(value: u32) -> (granularity: Option<Self>)
        ensures
            granularity matches Some(g) ==> granularity_value(g) == value,
            granularity is None <==> value > 5,
    {
        match value {
            0 => Some(CTextGranularity::Character),
            1 => Some(CTextGranularity::Word),
            2 => Some(CTextGranularity::Sentence),
            3 => Some(CTextGranularity::Paragraph),
            4 => Some(CTextGranularity::Line),
            5 => Some(CTextGranularity::Document),
            _ => None,
        }
    }
}

/// Each granularity has its own integer across the C interface.
pub proof fn lemma_granularity_values_distinct(a: CTextGranularity, b: CTextGranularity)
    ensures
        granularity_value(a) == granularity_value(b) <==> a == b,
{
}

/// The C values are UIKit's: `UITextLayoutDirection` has right = 2, left = 3,
/// up = 4, down = 5, and `UITextGranularity` has character = 0 up to
/// document = 5; decoding a C value gives back its direction or granularity.
pub proof fn lemma_c_values_are_uikits()
    ensures
        layout_direction_value(CTextLayoutDirection::Right) == 2,
        layout_direction_value(CTextLayoutDirection::Left) == 3,
        layout_direction_value(CTextLayoutDirection::Up) == 4,
        layout_direction_value(CTextLayoutDirection::Down) == 5,
        granularity_value(CTextGranularity::Character) == 0,
        granularity_value(CTextGranularity::Word) == 1,
        granularity_value(CTextGranularity::Sentence) == 2,
        granularity_value(CTextGranularity::Paragraph) == 3,
        granularity_value(CTextGranularity::Line) == 4,
        granularity_value(CTextGranularity::Document) == 5,
{
}

/// A UUID as its 16 bytes, laid out for the C interface.
#[derive(Debug)]
pub struct CUuid([u8; 16]);

impl View for CUuid {
    type V = Seq<u8>;

    closed spec fn view(&self) -> Seq<u8> {
        self.0@
    }
}

/// The lower-case hexadecimal digit of a value below sixteen.
pub open spec fn hex_digit(n: u8) -> char {
    if n < 10 {
        (48 + n) as char
    } else {
        (87 + n) as char
    }
}

/// Two lower-case hexadecimal digits for each byte, most significant first.
pub open spec fn hex_text(bytes: Seq<u8>) -> Seq<char>
    decreases bytes.len(),
{
    if bytes.len() == 0 {
        Seq::empty()
    } else {
        seq![hex_digit(bytes[0] / 16), hex_digit(bytes[0] % 16)] + hex_text(bytes.drop_first())
    }
}

/// The hyphenated lower-case text of a UUID, such as
/// `67e55044-10b1-426f-9247-bb680e5fe0c8`: groups of 4, 2, 2, 2 and 6 bytes.
pub open spec fn uuid_text(bytes: Seq<u8>) -> Seq<char> {
    hex_text(bytes.subrange(0, 4)) + seq!['-'] + hex_text(bytes.subrange(4, 6)) + seq!['-']
        + hex_text(bytes.subrange(6, 8)) + seq!['-'] + hex_text(bytes.subrange(8, 10)) + seq!['-']
        + hex_text(bytes.subrange(10, 16))
}

/// The `Display` text of `uuid::Uuid::from_bytes(bytes)`. The uuid crate
/// formats a UUID as lower-case hyphenated hexadecimal; this contract states
/// that format.
#[verifier::external_body]
fn uuid_display(bytes: [u8; 16]) -> (text: String)
    ensures
        text@ == uuid_text(bytes@),
{
    uuid::Uuid::from_bytes(bytes).to_string()
}

impl CUuid {
    /// The UUID with these bytes.
    pub fn from_bytes(bytes: [u8; 16]) -> (id: CUuid)
        ensures
            id@ == bytes@,
    {
        CUuid(bytes)
    }

    /// The nil UUID, whose bytes are all zero.
    pub fn nil() -> (id: CUuid)
        ensures
            id@ == Seq::new(16, |_i: int| 0u8),
    {
        let id = CUuid([0u8; 16]);
        assert(id@ =~= Seq::new(16, |_i: int| 0u8));
        id
    }

    /// The bytes of this UUID.
    pub fn into_bytes(self) -> (bytes: [u8; 16])
        ensures
            bytes@ == self@,
    {
        self.0
    }

    /// The hyphenated lower-case text of this UUID.
    pub fn to_text(&self) -> (text: String)
        ensures
            text@ == uuid_text(self@),
    {
        uuid_display(self.0)
    }
}

/// What the workspace tells the host app after drawing a frame.
#[derive(Debug)]
pub struct FfiWorkspaceResp {
    selected_file: CUuid,
}

impl View for FfiWorkspaceResp {
    /// The bytes of the selected file's UUID.
    type V = Seq<u8>;

    closed spec fn view(&self) -> Seq<u8> {
        self.selected_file@
    }
}

impl Default for FfiWorkspaceResp {
    fn default() -> (resp: Self)
        ensures
            resp@ == Seq::new(16, |_i: int| 0u8),
    {
        FfiWorkspaceResp { selected_file: CUuid::nil() }
    }
}

impl FfiWorkspaceResp {
    /// The response for the file the workspace has selected; without a
    /// selected file the nil UUID stands in.
    pub fn from_selected_file(selected_file: Option<CUuid>) -> (resp: Self)
        ensures
            selected_file matches Some(id) ==> resp@ == id@,
            selected_file is None ==> resp@ == Seq::new(16, |_i: int| 0u8),
    {
        match selected_file {
            Some(id) => FfiWorkspaceResp { selected_file: id },
            None => FfiWorkspaceResp { selected_file: CUuid::nil() },
        }
    }

    /// The selected file's UUID.
    pub fn selected_file(&self) -> (id: &CUuid)
        ensures
            id@ == self@,
    {
        &self.selected_file
    }
}

} // verus!
