use vstd::prelude::*;
use crate::workspace_ffi::{CUuid, uuid_text};

verus! {

/// X11's `CurrentTime`: the time argument that means "now".
pub const CURRENT_TIME: u32 = 0;

/// The X11 atoms that the clipboard protocol uses, as interned for the
/// application's window.
#[derive(Clone, Copy, Debug)]
pub struct AtomCollection {
    pub clipboard: u32,
    pub targets: u32,
    pub utf8_string: u32,
    pub image_png: u32,
    pub incr: u32,
}

/// Where a paste is in the X11 selection protocol.
#[derive(Debug)]
pub enum State {
    /// No paste is under way.
    AwaitingPaste,
    /// The clipboard owner was asked which formats it offers.
    AwaitingTargets,
    /// The clipboard owner was asked for the data in `format`.
    AwaitingData { source_window: u32, format: u32 },
    /// The data arrives in increments, gathered so far in `incremental_data`.
    AwaitingIncrementalData { incremental_data: Vec<u8>, format: u32 },
}

/// [`State`] with its gathered data as a sequence.
pub enum StateView {
    AwaitingPaste,
    AwaitingTargets,
    AwaitingData { source_window: u32, format: u32 },
    AwaitingIncrementalData { incremental_data: Seq<u8>, format: u32 },
}

impl View for State {
    type V = StateView;

    open spec fn view(&self) -> StateView {
        match self {
            State::AwaitingPaste => StateView::AwaitingPaste,
            State::AwaitingTargets => StateView::AwaitingTargets,
            State::AwaitingData { source_window, format } => StateView::AwaitingData {
                source_window: *source_window,
                format: *format,
            },
            State::AwaitingIncrementalData { incremental_data, format } =>
                StateView::AwaitingIncrementalData {
                incremental_data: incremental_data@,
                format: *format,
            },
        }
    }
}

/// The clipboard-paste protocol of one window.
pub struct Context {
    window: u32,
    atoms: AtomCollection,
    state: State,
}

/// What a [`Context`] is: its window, its atoms and where the paste is.
pub struct ContextView {
    pub window: u32,
    pub atoms: AtomCollection,
    pub state: StateView,
}

impl View for Context {
    type V = ContextView;

    closed spec fn view(&self) -> ContextView {
        ContextView { window: self.window, atoms: self.atoms, state: self.state@ }
    }
}

/// The parts of an X11 `SelectionNotify` event that the protocol reads.
#[derive(Clone, Copy, Debug)]
pub struct SelectionNotifyEvent {
    pub time: u32,
    pub requestor: u32,
    pub target: u32,
    pub property: u32,
}

/// The parts of an X11 `GetProperty` reply that reading clipboard data uses.
#[derive(Debug)]
pub struct PropertyReply {
    pub type_: u32,
    pub value: Vec<u8>,
    pub bytes_after: u32,
}

/// Something the protocol reports to the user and otherwise ignores.
#[derive(Clone, Copy, Debug, PartialEq, Eq, Structural)]
pub enum Notice {
    /// Formats were awaited but another target arrived.
    NonTargets,
    /// The formats came from another window than the one that asked.
    TargetsFromWrongWindow,
    /// The clipboard offers neither PNG nor UTF-8 text.
    NoSupportedFormat,
    /// The data came from another window than the one that was asked.
    DataFromWrongWindow,
}

/// The text printed for a notice.
pub open spec fn notice_text(notice: Notice) -> Seq<char> {
    match notice {
        Notice::NonTargets => "handle selection: awaiting targets but received non-targets"@,
        Notice::TargetsFromWrongWindow => "handle selection: received targets from wrong window"@,
        Notice::NoSupportedFormat => "handle selection: no supported formats available"@,
        Notice::DataFromWrongWindow => "handle selection: received data from wrong window"@,
    }
}

impl Notice {
    /// The text printed for this notice.
    pub fn message(&self) -> (text: &'static str)
        ensures
            text@ == notice_text(*self),
    {
        match self {
            Notice::NonTargets => "handle selection: awaiting targets but received non-targets",
            Notice::TargetsFromWrongWindow =>
                "handle selection: received targets from wrong window",
            Notice::NoSupportedFormat => "handle selection: no supported formats available",
            Notice::DataFromWrongWindow => "handle selection: received data from wrong window",
        }
    }
}

/// What to do first when a `SelectionNotify` event arrives.
#[derive(Clone, Copy, Debug, PartialEq, Eq, Structural)]
pub enum SelectionReply {
    /// The event concerns no paste under way.
    Ignore,
    /// Report the notice; the paste stays where it is.
    Report(Notice),
    /// Read the offered formats from the window's clipboard property and hand
    /// them to [`Context::targets_fetched`].
    FetchTargets,
    /// Report that data of type `received` arrived where `expected` was asked.
    WrongType { received: u32, expected: u32 },
    /// Read the clipboard data in `format` and hand it to
    /// [`Context::data_fetched`].
    ReadData { format: u32 },
}

/// An X11 request or application effect that a step of the protocol asks for.
#[derive(Debug)]
pub enum Action {
    /// Nothing to do.
    Nothing,
    /// Report a notice.
    Report(Notice),
    /// Ask the owner of `selection` to convert it to `target` and store it in
    /// `property` of `requestor`.
    ConvertSelection { requestor: u32, selection: u32, target: u32, property: u32, time: u32 },
    /// Delete `property` of `window`, which asks for the next increment.
    DeleteProperty { window: u32, property: u32 },
    /// Paste `data`, which is in `format`, into the application.
    Paste { format: u32, data: Vec<u8> },
}

/// An action, and the state the protocol moves to once it succeeded
/// (`None`: the state stays).
#[derive(Debug)]
pub struct Step {
    pub action: Action,
    pub next: Option<State>,
}

/// The format a paste asks for among the offered `targets`: a PNG image
/// first, UTF-8 text second.
pub open spec fn chosen_format(atoms: AtomCollection, targets: Seq<u32>) -> Option<u32> {
    if targets.contains(atoms.image_png) {
        Some(atoms.image_png)
    } else if targets.contains(atoms.utf8_string) {
        Some(atoms.utf8_string)
    } else {
        None
    }
}

/// The first reaction of the protocol in a state to a `SelectionNotify` event.
pub open spec fn selection_reply(c: ContextView, event: SelectionNotifyEvent) -> SelectionReply {
    if event.property != c.atoms.clipboard {
        SelectionReply::Ignore
    } else {
        match c.state {
            StateView::AwaitingTargets => if event.target != c.atoms.targets {
                SelectionReply::Report(Notice::NonTargets)
            } else if event.requestor != c.window {
                SelectionReply::Report(Notice::TargetsFromWrongWindow)
            } else {
                SelectionReply::FetchTargets
            },
            StateView::AwaitingData { source_window, format } => if event.target != format {
                SelectionReply::WrongType { received: event.target, expected: format }
            } else if event.requestor != source_window {
                SelectionReply::Report(Notice::DataFromWrongWindow)
            } else {
                SelectionReply::ReadData { format }
            },
            _ => SelectionReply::Ignore,
        }
    }
}

/// Optional bytes as a sequence.
pub open spec fn bytes_view(bytes: Option<Vec<u8>>) -> Option<Seq<u8>> {
    match bytes {
        Some(v) => Some(v@),
        None => None,
    }
}

/// When the awaited data arrives (on the clipboard property, of the requested
/// format, from the window asked), it is read in that format; data is rejected
/// as of the wrong type only when its type differs from the requested format,
/// and the rejection names both. Awaiting the formats, the formats are fetched
/// exactly when the event carries them to the pasting window.
pub proof fn lemma_selection_reply_reads_awaited_data(c: ContextView, event: SelectionNotifyEvent)
    ensures
        c.state is AwaitingData && event.property == c.atoms.clipboard && event.target
            == c.state->AwaitingData_format && event.requestor == c.state->AwaitingData_source_window
            ==> selection_reply(c, event) == (SelectionReply::ReadData {
            format: c.state->AwaitingData_format,
        }),
        selection_reply(c, event) matches SelectionReply::WrongType { received, expected } ==> {
            &&& received != expected
            &&& received == event.target
            &&& c.state is AwaitingData && expected == c.state->AwaitingData_format
        },
        selection_reply(c, event) matches SelectionReply::ReadData { format } ==> {
            &&& event.target == format
            &&& event.property == c.atoms.clipboard
            &&& c.state is AwaitingData && c.state->AwaitingData_format == format
            &&& event.requestor == c.state->AwaitingData_source_window
        },
        c.state is AwaitingTargets && event.property == c.atoms.clipboard ==> (selection_reply(c, event)
            == SelectionReply::FetchTargets <==> (event.target == c.atoms.targets && event.requestor
            == c.window)),
        event.property != c.atoms.clipboard ==> selection_reply(c, event) == SelectionReply::Ignore,
        (c.state is AwaitingPaste || c.state is AwaitingIncrementalData) ==> selection_reply(c, event)
            == SelectionReply::Ignore,
{
}

/// A paste asks for a PNG image whenever one is offered, otherwise for UTF-8
/// text when that is offered, and for nothing else.
pub proof fn lemma_chosen_format_prefers_png(atoms: AtomCollection, targets: Seq<u32>)
    ensures
        targets.contains(atoms.image_png) ==> chosen_format(atoms, targets) == Some(atoms.image_png),
        !targets.contains(atoms.image_png) && targets.contains(atoms.utf8_string) ==> chosen_format(
            atoms,
            targets,
        ) == Some(atoms.utf8_string),
        chosen_format(atoms, targets) matches Some(f) ==> targets.contains(f) && (f
            == atoms.image_png || f == atoms.utf8_string),
        chosen_format(atoms, targets) is None <==> !targets.contains(atoms.image_png)
            && !targets.contains(atoms.utf8_string),
{
}

/// The state after an increment `chunk` arrived (`None`: the property held no
/// data yet).
pub open spec fn incremental_next(s: StateView, chunk: Option<Seq<u8>>) -> StateView {
    match s {
        StateView::AwaitingIncrementalData { incremental_data, format } => match chunk {
            Some(d) => if d.len() == 0 {
                StateView::AwaitingPaste
            } else {
                StateView::AwaitingIncrementalData { incremental_data: incremental_data + d, format }
            },
            None => s,
        },
        _ => s,
    }
}

/// What is pasted once an increment `chunk` arrived: the gathered data when
/// the empty increment that ends the transfer arrives, unless nothing was
/// gathered.
pub open spec fn incremental_paste(s: StateView, chunk: Option<Seq<u8>>) -> Option<(u32, Seq<u8>)> {
    match s {
        StateView::AwaitingIncrementalData { incremental_data, format } => match chunk {
            Some(d) => if d.len() == 0 && incremental_data.len() > 0 {
                Some((format, incremental_data))
            } else {
                None
            },
            None => None,
        },
        _ => None,
    }
}

/// The increments in the order they arrived, joined.
pub open spec fn joined(chunks: Seq<Seq<u8>>) -> Seq<u8>
    decreases chunks.len(),
{
    if chunks.len() == 0 {
        Seq::empty()
    } else {
        joined(chunks.drop_last()) + chunks.last()
    }
}

/// The state after the increments `chunks` arrived one after the other.
pub open spec fn after_increments(s: StateView, chunks: Seq<Seq<u8>>) -> StateView
    decreases chunks.len(),
{
    if chunks.len() == 0 {
        s
    } else {
        incremental_next(after_increments(s, chunks.drop_last()), Some(chunks.last()))
    }
}

/// An incremental transfer gathers its non-empty increments in order, and the
/// empty increment that ends it pastes exactly what was gathered, in the
/// format that was asked for, and ends the paste.
pub proof fn lemma_incremental_transfer(format: u32, chunks: Seq<Seq<u8>>)
    requires
        forall|i: int| 0 <= i < chunks.len() ==> #[trigger] chunks[i].len() > 0,
    ensures
        after_increments(
            StateView::AwaitingIncrementalData { incremental_data: Seq::empty(), format },
            chunks,
        ) == (StateView::AwaitingIncrementalData { incremental_data: joined(chunks), format }),
        chunks.len() > 0 ==> incremental_paste(
            after_increments(
                StateView::AwaitingIncrementalData { incremental_data: Seq::empty(), format },
                chunks,
            ),
            Some(Seq::empty()),
        ) == Some((format, joined(chunks))),
        incremental_next(
            after_increments(
                StateView::AwaitingIncrementalData { incremental_data: Seq::empty(), format },
                chunks,
            ),
            Some(Seq::empty()),
        ) == StateView::AwaitingPaste,
    decreases chunks.len(),
{
    let start = StateView::AwaitingIncrementalData { incremental_data: Seq::empty(), format };
    if chunks.len() == 0 {
        assert(joined(chunks) =~= Seq::empty());
    } else {
        let rest = chunks.drop_last();
        assert forall|i: int| 0 <= i < rest.len() implies #[trigger] rest[i].len() > 0 by {
            assert(rest[i] == chunks[i]);
        }
        lemma_incremental_transfer(format, rest);
        assert(chunks.last() == chunks[chunks.len() - 1]);
        assert(chunks.last().len() > 0);
        lemma_joined_nonempty(chunks);
    }
}

proof fn lemma_joined_nonempty(chunks: Seq<Seq<u8>>)
    requires
        chunks.len() > 0,
        chunks.last().len() > 0,
    ensures
        joined(chunks).len() > 0,
{
}

/// The little-endian value of four bytes.
pub open spec fn u32_le(b: Seq<u8>) -> int {
    b[0] + 256 * b[1] + 65536 * b[2] + 16777216 * b[3]
}

/// The big-endian value of four bytes.
pub open spec fn u32_be(b: Seq<u8>) -> int {
    b[3] + 256 * b[2] + 65536 * b[1] + 16777216 * b[0]
}

/// Whether `atom` is the value of the `i`-th group of four bytes, read
/// little-endian (`little`) or big-endian.
pub open spec fn is_atom_at(bytes: Seq<u8>, i: int, atom: u32, little: bool) -> bool {
    let b = bytes.subrange(4 * i, 4 * i + 4);
    if little {
        atom == u32_le(b)
    } else {
        atom == u32_be(b)
    }
}

/// `u32::from_ne_bytes`: the value of four bytes in the machine's byte order,
/// which is little-endian or big-endian.
#[verifier::external_body]
fn u32_from_native_bytes(bytes: [u8; 4]) -> (value: u32)
    ensures
        value == u32_le(bytes@) || value == u32_be(bytes@),
{
    u32::from_ne_bytes(bytes)
}

/// The value of four bytes, little-endian (`little`) or big-endian.
fn decode_u32(b0: u8, b1: u8, b2: u8, b3: u8, little: bool) -> (value: u32)
    ensures
        little ==> value == u32_le(seq![b0, b1, b2, b3]),
        !little ==> value == u32_be(seq![b0, b1, b2, b3]),
{
    if little {
        b0 as u32 + 256 * (b1 as u32) + 65536 * (b2 as u32) + 16777216 * (b3 as u32)
    } else {
        b3 as u32 + 256 * (b2 as u32) + 65536 * (b1 as u32) + 16777216 * (b0 as u32)
    }
}

/// Splits the value of a `TARGETS` property into atoms of four bytes each, all
/// in the machine's byte order (little-endian or big-endian); trailing bytes
/// that make no whole atom are dropped.
pub fn targets_from_bytes(bytes: &Vec<u8>) -> (atoms: Vec<u32>)
    ensures
        atoms.len() == bytes.len() / 4,
        (forall|i: int| 0 <= i < atoms.len() ==> is_atom_at(bytes@, i, #[trigger] atoms[i], true))
            || (forall|i: int|
            0 <= i < atoms.len() ==> is_atom_at(bytes@, i, #[trigger] atoms[i], false)),
{
    // the machine's byte order: one in the lowest byte reads as one only
    // when the machine is little-endian
    let probe = u32_from_native_bytes([1u8, 0u8, 0u8, 0u8]);
    let little = probe == 1;
    proof {
        let one = [1u8, 0u8, 0u8, 0u8];
        assert(one@ =~= seq![1u8, 0u8, 0u8, 0u8]);
    }
    let mut atoms: Vec<u32> = Vec::new();
    let n: usize = bytes.len() / 4;
    let mut i: usize = 0;
    while i < n
        invariant
            n == bytes.len() / 4,
            i <= n,
            atoms.len() == i,
            forall|j: int| 0 <= j < i ==> is_atom_at(bytes@, j, #[trigger] atoms[j], little),
        decreases n - i,
    {
        let k: usize = 4 * i;
        let atom = decode_u32(bytes[k], bytes[k + 1], bytes[k + 2], bytes[k + 3], little);
        proof {
            let b = bytes@.subrange(4 * i as int, 4 * i as int + 4);
            assert(seq![bytes@[4 * i as int], bytes@[4 * i + 1], bytes@[4 * i + 2], bytes@[4 * i + 3]] =~= b);
        }
        atoms.push(atom);
        i = i + 1;
    }
    atoms
}

/// Clipboard data read so far from a property, and where to read next: the
/// offset counts 32-bit units, as X11's `GetProperty` does.
#[derive(Debug)]
pub struct ReadProgress {
    pub data: Vec<u8>,
    pub offset: u32,
}

/// What one `GetProperty` reply makes of reading clipboard data.
#[derive(Debug)]
pub enum ReadOutcome {
    /// The data is transferred incrementally.
    Incremental,
    /// More data follows: read again at the new offset.
    Continue(ReadProgress),
    /// All data was read.
    Complete(Vec<u8>),
}

impl ReadProgress {
    /// Nothing read yet, reading from the start.
    pub fn new() -> (progress: ReadProgress)
        ensures
            progress.data@ == Seq::<u8>::empty(),
            progress.offset == 0,
    {
        ReadProgress { data: Vec::new(), offset: 0 }
    }
}

/// The type of a paste, by the format of its data.
#[derive(Debug)]
pub enum PasteAction {
    /// UTF-8 text, pasted as text.
    Text(String),
    /// A PNG image: imported as a document and pasted as a link to it.
    Image,
    /// A format the application does not paste.
    Unsupported,
}

/// The text that `String::from_utf8_lossy` makes of `bytes`: invalid UTF-8
/// sequences become U+FFFD.
pub uninterp spec fn utf8_lossy(bytes: Seq<u8>) -> Seq<char>;

/// `String::from_utf8_lossy`, taken as an owned string. Its result is named by
/// `utf8_lossy`; this contract says nothing more of it.
#[verifier::external_body]
fn lossy_text(bytes: &Vec<u8>) -> (text: String)
    ensures
        text@ == utf8_lossy(bytes@),
{
    String::from_utf8_lossy(bytes.as_slice()).to_string()
}

/// The digit character of a value below ten.
pub open spec fn digit_char(d: nat) -> char {
    (48 + d) as char
}

/// The decimal text of a number, without leading zeros.
pub open spec fn decimal_text(n: nat) -> Seq<char>
    decreases n,
{
    if n < 10 {
        seq![digit_char(n)]
    } else {
        decimal_text(n / 10) + seq![digit_char(n % 10)]
    }
}

fn digit_text(d: u128) -> (text: &'static str)
    requires
        d < 10,
    ensures
        text@ == seq![digit_char(d as nat)],
{
    if d == 0 {
        proof { reveal_strlit("0"); }
        "0"
    } else if d == 1 {
        proof { reveal_strlit("1"); }
        "1"
    } else if d == 2 {
        proof { reveal_strlit("2"); }
        "2"
    } else if d == 3 {
        proof { reveal_strlit("3"); }
        "3"
    } else if d == 4 {
        proof { reveal_strlit("4"); }
        "4"
    } else if d == 5 {
        proof { reveal_strlit("5"); }
        "5"
    } else if d == 6 {
        proof { reveal_strlit("6"); }
        "6"
    } else if d == 7 {
        proof { reveal_strlit("7"); }
        "7"
    } else if d == 8 {
        proof { reveal_strlit("8"); }
        "8"
    } else {
        proof { reveal_strlit("9"); }
        "9"
    }
}

/// Appends the decimal text of `n` to `text`.
fn append_decimal(text: &mut String, n: u128)
    ensures
        final(text)@ == old(text)@ + decimal_text(n as nat),
    decreases n,
{
    if n >= 10 {
        append_decimal(text, n / 10);
    }
    text.append(digit_text(n % 10));
    proof {
        assert(n as nat / 10 == (n / 10) as nat);
    }
}

/// The name of the document a pasted image is imported as, made unique by the
/// time of the paste in microseconds since the Unix epoch.
pub fn pasted_image_name(micros: u128) -> (name: String)
    ensures
        name@ == "pasted_image_"@ + decimal_text(micros as nat) + ".png"@,
{
    let mut name = String::from_str("pasted_image_");
    append_decimal(&mut name, micros);
    name.append(".png");
    name
}

/// The markdown link that shows an imported image document in the editor.
pub fn image_link(id: &CUuid) -> (link: String)
    ensures
        link@ == "![pasted image](lb://"@ + uuid_text(id@) + ")"@,
{
    let mut link = String::from_str("![pasted image](lb://");
    let text = id.to_text();
    link.append(text.as_str());
    link.append(")");
    link
}

impl Context {
    /// A context of `window` with no paste under way.
    pub fn new(window: u32, atoms: AtomCollection) -> (c: Context)
        ensures
            c@.window == window,
            c@.atoms == atoms,
            c@.state == StateView::AwaitingPaste,
    {
        Context { window, atoms, state: State::AwaitingPaste }
    }

    /// The window that pastes.
    pub fn window(&self) -> (window: u32)
        ensures
            window == self@.window,
    {
        self.window
    }

    /// The atoms of the protocol.
    pub fn atoms(&self) -> (atoms: AtomCollection)
        ensures
            atoms == self@.atoms,
    {
        self.atoms
    }

    /// Where the paste is.
    pub fn state(&self) -> (state: &State)
        ensures
            state@ == self@.state,
    {
        &self.state
    }

    /// Moves the protocol to `next`, once the action of a step succeeded.
    pub fn commit(&mut self, next: State)
        ensures
            final(self)@.window == old(self)@.window,
            final(self)@.atoms == old(self)@.atoms,
            final(self)@.state == next@,
    {
        self.state = next;
    }

    /// Starts a paste: asks the clipboard owner which formats it offers; the
    /// answer comes as a `SelectionNotify` event.
    pub fn handle_paste(&self) -> (step: Step)
        ensures
            step.action matches Action::ConvertSelection { requestor, selection, target, property, time }
                && requestor == self@.window && selection == self@.atoms.clipboard
                && target == self@.atoms.targets && property == self@.atoms.clipboard
                && time == CURRENT_TIME,
            step.next matches Some(s) && s@ == StateView::AwaitingTargets,
    {
        Step {
            action: Action::ConvertSelection {
                requestor: self.window,
                selection: self.atoms.clipboard,
                target: self.atoms.targets,
                property: self.atoms.clipboard,
                time: CURRENT_TIME,
            },
            next: Some(State::AwaitingTargets),
        }
    }

    /// The first reaction to a `SelectionNotify` event; it changes no state.
    pub fn handle_selection_notify(&self, event: &SelectionNotifyEvent) -> (reply: SelectionReply)
        ensures
            reply == selection_reply(self@, *event),
    {
        if event.property != self.atoms.clipboard {
            return SelectionReply::Ignore;
        }
        match &self.state {
            State::AwaitingTargets => {
                if event.target != self.atoms.targets {
                    SelectionReply::Report(Notice::NonTargets)
                } else if event.requestor != self.window {
                    SelectionReply::Report(Notice::TargetsFromWrongWindow)
                } else {
                    SelectionReply::FetchTargets
                }
            },
            State::AwaitingData { source_window, format } => {
                let format = *format;
                if event.target != format {
                    SelectionReply::WrongType { received: event.target, expected: format }
                } else if event.requestor != *source_window {
                    SelectionReply::Report(Notice::DataFromWrongWindow)
                } else {
                    SelectionReply::ReadData { format }
                }
            },
            _ => SelectionReply::Ignore,
        }
    }

    /// Once the offered formats are read: asks the owner for the data in the
    /// preferred format, or gives up the paste when none is supported.
    pub fn targets_fetched(&self, event: &SelectionNotifyEvent, targets: &Vec<u32>) -> (step: Step)
        ensures
            chosen_format(self@.atoms, targets@) matches Some(format) ==> {
                &&& step.action matches Action::ConvertSelection { requestor, selection, target, property, time }
                    && requestor == event.requestor && selection == self@.atoms.clipboard
                    && target == format && property == self@.atoms.clipboard && time == event.time
                &&& step.next matches Some(s) && s@ == (StateView::AwaitingData {
                    source_window: event.requestor,
                    format,
                })
            },
            chosen_format(self@.atoms, targets@) is None ==> {
                &&& step.action matches Action::Report(n) && n == Notice::NoSupportedFormat
                &&& step.next matches Some(s) && s@ == StateView::AwaitingPaste
            },
    {
        let format = if contains_atom(targets, self.atoms.image_png) {
            self.atoms.image_png
        } else if contains_atom(targets, self.atoms.utf8_string) {
            self.atoms.utf8_string
        } else {
            return Step { action: Action::Report(Notice::NoSupportedFormat), next: Some(State::AwaitingPaste) };
        };
        Step {
            action: Action::ConvertSelection {
                requestor: event.requestor,
                selection: self.atoms.clipboard,
                target: format,
                property: self.atoms.clipboard,
                time: event.time,
            },
            next: Some(State::AwaitingData { source_window: event.requestor, format }),
        }
    }

    /// Once the requested data is read (`None`: it comes incrementally):
    /// pastes it, or starts the incremental transfer.
    pub fn data_fetched(&self, event: &SelectionNotifyEvent, data: Option<Vec<u8>>) -> (step: Step)
        ensures
            !(self@.state is AwaitingData) ==> step.action is Nothing && step.next is None,
            self@.state matches StateView::AwaitingData { source_window, format } ==> {
                &&& data matches Some(d) ==> {
                    &&& step.action matches Action::Paste { format: f, data: pasted } && f == format
                        && pasted@ == d@
                    &&& step.next matches Some(s) && s@ == StateView::AwaitingPaste
                }
                &&& data is None ==> {
                    &&& step.action matches Action::DeleteProperty { window, property }
                        && window == event.requestor && property == self@.atoms.clipboard
                    &&& step.next matches Some(s) && s@ == (StateView::AwaitingIncrementalData {
                        incremental_data: Seq::empty(),
                        format,
                    })
                }
            },
    {
        let format = match &self.state {
            State::AwaitingData { format, .. } => *format,
            _ => return Step { action: Action::Nothing, next: None },
        };
        match data {
            Some(data) => Step {
                action: Action::Paste { format, data },
                next: Some(State::AwaitingPaste),
            },
            None => Step {
                action: Action::DeleteProperty { window: event.requestor, property: self.atoms.clipboard },
                next: Some(State::AwaitingIncrementalData { incremental_data: Vec::new(), format }),
            },
        }
    }

    /// On a `PropertyNotify` event: the format to read the next increment in,
    /// when an incremental transfer is under way.
    pub fn handle_property_notify(&self) -> (format: Option<u32>)
        ensures
            self@.state matches StateView::AwaitingIncrementalData { format: f, .. } ==> format == Some(f),
            !(self@.state is AwaitingIncrementalData) ==> format is None,
    {
        match &self.state {
            State::AwaitingIncrementalData { format, .. } => Some(*format),
            _ => None,
        }
    }

    /// Once an increment was read from the property of `window` (`None`: none
    /// was there): gathers it, asks for the next one, and pastes the gathered
    /// data when the empty increment ends the transfer.
    pub fn incremental_data_fetched(&mut self, window: u32, chunk: Option<Vec<u8>>) -> (action: Action)
        ensures
            final(self)@.window == old(self)@.window,
            final(self)@.atoms == old(self)@.atoms,
            final(self)@.state == incremental_next(old(self)@.state, bytes_view(chunk)),
            incremental_paste(old(self)@.state, bytes_view(chunk)) matches Some((f, d))
                ==> (action matches Action::Paste { format, data } && format == f && data@ == d),
            old(self)@.state is AwaitingIncrementalData && chunk is Some && chunk->0@.len() > 0
                ==> (action matches Action::DeleteProperty { window: w, property }
                && w == window && property == old(self)@.atoms.clipboard),
            incremental_paste(old(self)@.state, bytes_view(chunk)) is None
                && !(old(self)@.state is AwaitingIncrementalData && chunk is Some && chunk->0@.len() > 0)
                ==> action is Nothing,
    {
        let clipboard = self.atoms.clipboard;
        let chunk = match chunk {
            Some(c) => c,
            None => return Action::Nothing,
        };
        let done = match &mut self.state {
            State::AwaitingIncrementalData { incremental_data, .. } => {
                let mut chunk = chunk;
                let more = chunk.len() > 0;
                incremental_data.append(&mut chunk);
                if more {
                    return Action::DeleteProperty { window, property: clipboard };
                }
                true
            },
            _ => false,
        };
        if !done {
            return Action::Nothing;
        }
        let mut old_state = State::AwaitingPaste;
        std::mem::swap(&mut old_state, &mut self.state);
        match old_state {
            State::AwaitingIncrementalData { incremental_data, format } => {
                if incremental_data.len() > 0 {
                    Action::Paste { format, data: incremental_data }
                } else {
                    Action::Nothing
                }
            },
            _ => Action::Nothing,
        }
    }

    /// One reply of reading clipboard data in `format` from the window's
    /// clipboard property: the data is incremental when the reply's type is
    /// `INCR`; otherwise the reply's bytes are gathered, and reading goes on
    /// while bytes remain after them, at the offset (in 32-bit units) of the
    /// whole units gathered so far.
    pub fn read_clipboard_data_step(&self, progress: ReadProgress, reply: PropertyReply) -> (outcome:
        ReadOutcome)
        requires
            reply.type_ == self@.atoms.incr || (progress.data@.len() + reply.value@.len()) / 4
                <= u32::MAX,
        ensures
            reply.type_ == self@.atoms.incr ==> outcome is Incremental,
            reply.type_ != self@.atoms.incr && reply.bytes_after == 0 ==> (outcome matches ReadOutcome::Complete(d)
                && d@ == progress.data@ + reply.value@),
            reply.type_ != self@.atoms.incr && reply.bytes_after != 0 ==> (outcome matches ReadOutcome::Continue(p)
                && p.data@ == progress.data@ + reply.value@ && p.offset == p.data@.len() / 4
                && (p.data@.len() % 4 == 0 ==> p.data@.len() == 4 * p.offset)),
    {
        if reply.type_ == self.atoms.incr {
            return ReadOutcome::Incremental;
        }
        let mut data = progress.data;
        let mut value = reply.value;
        data.append(&mut value);
        let offset = (data.len() / 4) as u32;
        if reply.bytes_after == 0 {
            ReadOutcome::Complete(data)
        } else {
            ReadOutcome::Continue(ReadProgress { data, offset })
        }
    }

    /// How data in `format` is pasted: UTF-8 text as text (invalid sequences
    /// replaced), a PNG image as an imported document, other formats not at
    /// all.
    pub fn app_paste(&self, format: u32, data: &Vec<u8>) -> (paste: PasteAction)
        ensures
            format == self@.atoms.utf8_string ==> (paste matches PasteAction::Text(t) && t@ == utf8_lossy(data@)),
            format != self@.atoms.utf8_string && format == self@.atoms.image_png ==> paste is Image,
            format != self@.atoms.utf8_string && format != self@.atoms.image_png ==> paste is Unsupported,
    {
        if format == self.atoms.utf8_string {
            PasteAction::Text(lossy_text(data))
        } else if format == self.atoms.image_png {
            PasteAction::Image
        } else {
            PasteAction::Unsupported
        }
    }
}

fn contains_atom(atoms: &Vec<u32>, atom: u32) -> (found: bool)
    ensures
        found == atoms@.contains(atom),
{
    let mut i: usize = 0;
    while i < atoms.len()
        invariant
            i <= atoms.len(),
            forall|j: int| 0 <= j < i ==> atoms[j] != atom,
        decreases atoms.len() - i,
    {
        if atoms[i] == atom {
            return true;
        }
        i = i + 1;
    }
    false
}

} // verus!
