//! The editor controller: which buffer operation each command stands for,
//! what has to go out to the language server and the clipboard afterwards,
//! and the blinking of the caret.

use crate::buffer::{spaces_string, SelectionMode, TextBuffer};
use crate::events::{DidChangeNotification, NotificationView};
use crate::model::{spaces, BufferState, HitTest};
use crate::settings::{Settings, SyncMode};
use vstd::prelude::*;

verus! {

/// The key code of the backspace key.
pub const VK_BACK: i32 = 0x08;

/// The key code of the tab key.
pub const VK_TAB: i32 = 0x09;

/// The key code of the return key.
pub const VK_RETURN: i32 = 0x0D;

/// The key code of the left arrow key.
pub const VK_LEFT: i32 = 0x25;

/// The key code of the up arrow key.
pub const VK_UP: i32 = 0x26;

/// The key code of the right arrow key.
pub const VK_RIGHT: i32 = 0x27;

/// The key code of the down arrow key.
pub const VK_DOWN: i32 = 0x28;

/// The key code of the delete key.
pub const VK_DELETE: i32 = 0x2E;

/// The key code of the A key, which selects all with control.
pub const KEY_A: i32 = 0x41;

/// The key code of the C key, which copies with control.
pub const KEY_C: i32 = 0x43;

/// The key code of the V key, which pastes with control.
pub const KEY_V: i32 = 0x56;

/// The key code of the X key, which cuts with control.
pub const KEY_X: i32 = 0x58;

/// The error code by which a server says that the content changed while it
/// worked on a request.
pub const CONTENT_MODIFIED: i64 = -32801;

/// The kind of a request to a language server.
#[derive(Clone, Copy, Debug, PartialEq, Eq, Structural)]
pub enum LSPRequestType {
    InitializationRequest,
    SemanticTokensRequest,
}

/// What a language server answered to a request.
#[derive(Clone, Debug, PartialEq, Eq)]
pub enum ServerResponse {
    /// An error, with its code.
    Error(i64),
    /// A result that holds semantic tokens in their stream form.
    Tokens(Vec<u32>),
    /// Any other result.
    Other,
}

/// What the platform has to send after a response.
#[derive(Clone, Copy, Debug, PartialEq, Eq, Structural)]
pub enum ResponseAction {
    /// Nothing.
    Nothing,
    /// The note that the client is initialized, the announcement of the
    /// document, and a request for its semantic tokens.
    OpenDocument,
    /// A fresh request for semantic tokens.
    RequestTokens,
}

/// What follows from an error with code `code`.
pub open spec fn error_action(request_type: LSPRequestType, code: i64) -> ResponseAction {
    if request_type == LSPRequestType::SemanticTokensRequest && code == CONTENT_MODIFIED {
        ResponseAction::RequestTokens
    } else {
        ResponseAction::Nothing
    }
}

/// What follows from a result, given whether the buffer still has the
/// version that the request was sent for and whether the result holds tokens.
pub open spec fn success_action(
    request_type: LSPRequestType,
    current: bool,
    has_tokens: bool,
) -> ResponseAction {
    match request_type {
        LSPRequestType::InitializationRequest => ResponseAction::OpenDocument,
        LSPRequestType::SemanticTokensRequest => if has_tokens && !current {
            ResponseAction::RequestTokens
        } else {
            ResponseAction::Nothing
        },
    }
}

/// The kind of region under the mouse, which decides the mouse cursor.
#[derive(Clone, Copy, Debug, PartialEq, Eq, Structural)]
pub enum RegionType {
    Display,
    Text,
    ResizableBorder,
    Unknown,
}

impl RegionType {
    /// The region type with the number `uint`; `Unknown` for a number that
    /// stands for none.
    pub open spec fn from_usize_spec(uint: usize) -> RegionType {
        if uint == 0 {
            RegionType::Display
        } else if uint == 1 {
            RegionType::Text
        } else if uint == 2 {
            RegionType::ResizableBorder
        } else {
            RegionType::Unknown
        }
    }

    /// The number of the region type.
    pub open spec fn to_usize_spec(region_type: RegionType) -> usize {
        match region_type {
            RegionType::Display => 0,
            RegionType::Text => 1,
            RegionType::ResizableBorder => 2,
            RegionType::Unknown => 3,
        }
    }

    #[verifier::when_used_as_spec(from_usize_spec)]
    pub fn from_usize(uint: usize) -> (region_type: Self)
        ensures
            region_type == Self::from_usize_spec(uint),
    {
        match uint {
            0 => Self::Display,
            1 => Self::Text,
            2 => Self::ResizableBorder,
            _ => Self::Unknown,
        }
    }

    #[verifier::when_used_as_spec(to_usize_spec)]
    pub fn to_usize(region_type: Self) -> (uint: usize)
        ensures
            uint == Self::to_usize_spec(region_type),
            uint <= 3,
    {
        match region_type {
            Self::Display => 0,
            Self::Text => 1,
            Self::ResizableBorder => 2,
            Self::Unknown => 3,
        }
    }
}

/// A region type survives the way through its number, and so does a number
/// that stands for a region type.
pub proof fn lemma_region_type_round_trip(region_type: RegionType, uint: usize)
    ensures
        RegionType::from_usize_spec(RegionType::to_usize_spec(region_type)) == region_type,
        uint <= 3 ==> RegionType::to_usize_spec(RegionType::from_usize_spec(uint)) == uint,
        uint > 3 ==> RegionType::from_usize_spec(uint) == RegionType::Unknown,
{
}

/// The part of the window that the mouse is over.
#[derive(Clone, Copy, Debug, PartialEq, Eq, Structural)]
pub enum PointerRegion {
    Buffer,
    StatusBar,
    FileTree,
    Outside,
}

/// Where a coordinate of the mouse lies relative to the window.
#[derive(Clone, Copy, Debug, PartialEq, Eq, Structural)]
pub enum Edge {
    Before,
    Within,
    After,
}

/// A change of the font size.
#[derive(Clone, Copy, Debug, PartialEq, Eq, Structural)]
pub enum Zoom {
    In,
    Out,
}

/// What the platform knows of a mouse move: the part of the window under the
/// mouse, the hit test of the text layout, and where the mouse lies relative
/// to the window, vertically and horizontally.
#[derive(Clone, Copy, Debug, PartialEq, Eq, Structural)]
pub struct PointerMove {
    pub region: PointerRegion,
    pub hit: HitTest,
    pub vertical: Edge,
    pub horizontal: Edge,
}

/// A command to the editor. The flags of a scroll say whether control is
/// down, those of a click whether shift is, and those of a key both, shift
/// first.
#[derive(Clone, Copy, Debug, PartialEq, Eq, Structural)]
pub enum EditorCommand {
    CaretVisible,
    CaretInvisible,
    ScrollUp(bool),
    ScrollDown(bool),
    LeftClick(HitTest, bool),
    LeftDoubleClick(HitTest),
    LeftRelease,
    MouseMove(PointerMove),
    KeyPressed(i32, bool, bool),
    CharInsert(u16),
    LSPClientCrash,
}

/// What the platform has to do after a command.
#[derive(Debug)]
pub struct Effects {
    /// The change to announce to the language server.
    pub notification: Option<DidChangeNotification>,
    /// Whether to ask the server for fresh semantic tokens.
    pub request_tokens: bool,
    /// The text to put on the clipboard.
    pub clipboard: Option<String>,
    /// The change of the font size to carry out, after which the buffer
    /// takes the new metrics.
    pub zoom: Option<Zoom>,
}

/// The mathematical value of `Effects`.
pub struct EffectsView {
    pub notification: Option<NotificationView>,
    pub request_tokens: bool,
    pub clipboard: Option<Seq<char>>,
    pub zoom: Option<Zoom>,
}

impl View for Effects {
    type V = EffectsView;

    open spec fn view(&self) -> EffectsView {
        EffectsView {
            notification: match self.notification {
                Some(n) => Some(n@),
                None => None,
            },
            request_tokens: self.request_tokens,
            clipboard: match self.clipboard {
                Some(text) => Some(text@),
                None => None,
            },
            zoom: self.zoom,
        }
    }
}

/// Whether `cmd` is a key press that edits the text: tab, return, delete,
/// backspace, cut, or a paste for which the clipboard gave text.
pub open spec fn key_edits(key: i32, ctrl: bool, pasted: bool) -> bool {
    key == VK_TAB || (key == VK_RETURN && !ctrl) || key == VK_DELETE || key == VK_BACK || (key
        == KEY_X && ctrl) || (key == KEY_V && ctrl && pasted)
}

/// Whether `cmd` edits the text.
pub open spec fn command_edits(cmd: EditorCommand, pasted: bool) -> bool {
    match cmd {
        EditorCommand::KeyPressed(key, _, ctrl) => key_edits(key, ctrl, pasted),
        EditorCommand::CharInsert(_) => true,
        _ => false,
    }
}

/// The buffer after a key press, before anything is synchronised.
pub open spec fn key_applied(
    v: BufferState,
    key: i32,
    shift: bool,
    ctrl: bool,
    clipboard: Option<Seq<char>>,
) -> BufferState {
    if key == VK_LEFT {
        if ctrl {
            v.moved_left_by_word(shift)
        } else {
            v.stepped_left(shift)
        }
    } else if key == VK_RIGHT {
        if ctrl {
            v.moved_right_by_word(shift)
        } else {
            v.stepped_right(shift)
        }
    } else if key == VK_DOWN {
        v.moved_vertically(true, shift)
    } else if key == VK_UP {
        v.moved_vertically(false, shift)
    } else if key == VK_TAB {
        v.inserted(spaces(v.tab_width))
    } else if key == VK_RETURN && !ctrl {
        v.newline_inserted()
    } else if key == VK_DELETE {
        if ctrl {
            v.deleted_right_by_word()
        } else {
            v.deleted_right()
        }
    } else if key == VK_BACK {
        if ctrl {
            v.deleted_left_by_word()
        } else {
            v.deleted_left()
        }
    } else if key == KEY_A && ctrl {
        v.all_selected()
    } else if key == KEY_X && ctrl {
        v.cut()
    } else if key == KEY_V && ctrl && clipboard is Some {
        v.inserted(clipboard->Some_0)
    } else {
        v
    }
}

/// The state after a mouse move: the view scrolls towards a mouse that is
/// outside the window, by `step` lines or columns, and the caret follows the
/// mouse while a drag is selecting.
pub open spec fn pointer_moved(v: BufferState, moved: PointerMove, step: int) -> BufferState {
    let vertical = match moved.vertical {
        Edge::After => v.scrolled_down(step),
        Edge::Before => v.scrolled_up(step),
        Edge::Within => v,
    };
    let horizontal = match moved.horizontal {
        Edge::After => vertical.scrolled_right(step),
        Edge::Before => vertical.scrolled_left(step),
        Edge::Within => vertical,
    };
    horizontal.dragged(moved.hit)
}

/// The buffer after a command, before anything is synchronised and before
/// the viewport is brought up to date. `roll` is the number of lines per
/// wheel step, `step` the number of lines or columns per mouse move.
#[verifier::opaque]
pub open spec fn command_applied(
    v: BufferState,
    cmd: EditorCommand,
    clipboard: Option<Seq<char>>,
    roll: int,
    step: int,
) -> BufferState {
    match cmd {
        EditorCommand::ScrollUp(ctrl) => if ctrl {
            v
        } else {
            v.scrolled_up(roll)
        },
        EditorCommand::ScrollDown(ctrl) => if ctrl {
            v
        } else {
            v.scrolled_down(roll)
        },
        EditorCommand::LeftClick(hit, shift) => v.clicked(hit, shift),
        EditorCommand::LeftDoubleClick(hit) => v.double_clicked(hit),
        EditorCommand::LeftRelease => v.released(),
        EditorCommand::MouseMove(moved) => pointer_moved(v, moved, step),
        EditorCommand::KeyPressed(key, shift, ctrl) => key_applied(v, key, shift, ctrl, clipboard),
        EditorCommand::CharInsert(character) => v.char_inserted(
            ((character % 256) as u8) as char,
        ),
        _ => v,
    }
}

/// The buffer after a command: the command is applied, a document that is
/// synchronised in full takes one more version for the batch that carries
/// its whole text, and the viewport is brought up to date.
pub open spec fn buffer_after(
    v: BufferState,
    cmd: EditorCommand,
    clipboard: Option<Seq<char>>,
    roll: int,
    step: int,
) -> BufferState {
    let applied = command_applied(v, cmd, clipboard, roll, step);
    if command_edits(cmd, clipboard is Some) && v.language.sync_mode() == SyncMode::Full {
        applied.version_bumped().after_action()
    } else {
        applied.after_action()
    }
}

/// The events that a key press that edits the text announces.
pub open spec fn key_events(
    v: BufferState,
    key: i32,
    ctrl: bool,
    clipboard: Option<Seq<char>>,
) -> Seq<crate::events::ChangeEventView> {
    if key == VK_TAB {
        v.insertion_events(spaces(v.tab_width))
    } else if key == VK_RETURN {
        v.insertion_events(v.newline_text())
    } else if key == VK_DELETE {
        if ctrl {
            seq![v.delete_right_by_word_event()]
        } else {
            seq![v.delete_right_event()]
        }
    } else if key == VK_BACK {
        if ctrl {
            seq![v.delete_left_by_word_event()]
        } else {
            seq![v.delete_left_event()]
        }
    } else if key == KEY_X {
        seq![v.cut_event()]
    } else {
        v.insertion_events(clipboard->Some_0)
    }
}

/// The events that a command that edits the text announces.
#[verifier::opaque]
pub open spec fn command_events(
    v: BufferState,
    cmd: EditorCommand,
    clipboard: Option<Seq<char>>,
) -> Seq<crate::events::ChangeEventView> {
    match cmd {
        EditorCommand::KeyPressed(key, _, ctrl) => key_events(v, key, ctrl, clipboard),
        EditorCommand::CharInsert(character) => v.insertion_events(
            seq![((character % 256) as u8) as char],
        ),
        _ => Seq::empty(),
    }
}

/// What goes to the language server after an edit that `change` announces
/// and that left the buffer in state `edited`: the change itself for a
/// document that is synchronised by increments; the whole text under one
/// more version for a document that is synchronised in full; nothing where
/// nothing is synchronised.
pub open spec fn outgoing(edited: BufferState, change: NotificationView) -> Option<
    NotificationView,
> {
    match edited.language.sync_mode() {
        SyncMode::Incremental => Some(change),
        SyncMode::Full => Some(edited.version_bumped().full_notification()),
        SyncMode::Off => None,
    }
}

/// What the platform has to do after a command.
pub open spec fn effects_of(
    v: BufferState,
    cmd: EditorCommand,
    clipboard: Option<Seq<char>>,
    roll: int,
    step: int,
) -> EffectsView {
    let edits = command_edits(cmd, clipboard is Some);
    let applied = command_applied(v, cmd, clipboard, roll, step);
    EffectsView {
        notification: if edits {
            outgoing(applied, applied.notification(command_events(v, cmd, clipboard)))
        } else {
            None
        },
        request_tokens: edits && v.language.sync_mode() != SyncMode::Off,
        clipboard: match cmd {
            EditorCommand::KeyPressed(key, _, ctrl) => if ctrl && (key == KEY_C || key == KEY_X) {
                v.copied()
            } else {
                None
            },
            _ => None,
        },
        zoom: match cmd {
            EditorCommand::ScrollUp(ctrl) => if ctrl {
                Some(Zoom::In)
            } else {
                None
            },
            EditorCommand::ScrollDown(ctrl) => if ctrl {
                Some(Zoom::Out)
            } else {
                None
            },
            _ => None,
        },
    }
}

/// Whether the caret is drawn after `cmd`, given whether it was drawn before
/// and how many blink steps it is still forced to stay visible.
pub open spec fn caret_visible_after(cmd: EditorCommand, visible: bool, timer: u32) -> bool {
    match cmd {
        EditorCommand::CaretVisible => true,
        EditorCommand::CaretInvisible => timer > 0,
        EditorCommand::LeftClick(_, _) => true,
        EditorCommand::LeftDoubleClick(_) => true,
        EditorCommand::KeyPressed(_, _, _) => true,
        EditorCommand::CharInsert(_) => true,
        _ => visible,
    }
}

/// The number of blink steps for which the caret is forced to stay visible
/// after `cmd`: a blink step uses one up; a click, a key or a char sets it
/// to 1 where the caret was drawn and to 2 where it was not.
pub open spec fn caret_timer_after(cmd: EditorCommand, visible: bool, timer: u32) -> u32 {
    let forced: u32 = if visible {
        1
    } else {
        2
    };
    match cmd {
        EditorCommand::CaretVisible => if timer > 0 {
            (timer - 1) as u32
        } else {
            timer
        },
        EditorCommand::CaretInvisible => if timer > 0 {
            (timer - 1) as u32
        } else {
            timer
        },
        EditorCommand::LeftClick(_, _) => forced,
        EditorCommand::LeftDoubleClick(_) => forced,
        EditorCommand::KeyPressed(_, _, _) => forced,
        EditorCommand::CharInsert(_) => forced,
        _ => timer,
    }
}

/// The state of the editor controller.
#[derive(Clone, Copy, Debug)]
pub struct Editor {
    /// The kind of region that the mouse was last announced to be over.
    pub region_type: RegionType,
    /// The part of the window that the mouse is over.
    pub pointer_region: PointerRegion,
    /// Whether the mouse is captured, so that moves do not change the region.
    pub mouse_pos_captured: bool,
    /// The number of blink steps for which the caret stays visible.
    pub force_visible_caret_timer: u32,
    /// Whether the caret is drawn.
    pub caret_is_visible: bool,
    /// The lines scrolled per step of the mouse wheel.
    pub scroll_lines_per_roll: usize,
    /// The lines or columns scrolled per mouse move outside the window.
    pub scroll_lines_per_mousemove: usize,
}

impl Editor {
    /// An editor with the mouse over nothing and the caret drawn.
    pub fn new(settings: &Settings) -> (editor: Self)
        ensures
            editor.region_type == RegionType::Display,
            editor.pointer_region == PointerRegion::Outside,
            !editor.mouse_pos_captured,
            editor.force_visible_caret_timer == 0,
            editor.caret_is_visible,
            editor.scroll_lines_per_roll == settings.scroll_lines_per_roll,
            editor.scroll_lines_per_mousemove == settings.scroll_lines_per_mousemove,
    {
        Editor {
            region_type: RegionType::Display,
            pointer_region: PointerRegion::Outside,
            mouse_pos_captured: false,
            force_visible_caret_timer: 0,
            caret_is_visible: true,
            scroll_lines_per_roll: settings.scroll_lines_per_roll,
            scroll_lines_per_mousemove: settings.scroll_lines_per_mousemove,
        }
    }

    /// Captures the mouse.
    pub fn capture_mouse(&mut self)
        ensures
            *final(self) == (Editor { mouse_pos_captured: true, ..*old(self) }),
    {
        self.mouse_pos_captured = true;
    }

    /// Releases the mouse.
    pub fn release_mouse(&mut self)
        ensures
            *final(self) == (Editor { mouse_pos_captured: false, ..*old(self) }),
    {
        self.mouse_pos_captured = false;
    }

    /// Whether a drag is selecting in the current buffer; false without one.
    pub fn selection_active(&self, buffer: Option<&TextBuffer>) -> (active: bool)
        ensures
            active == (buffer is Some && buffer->Some_0@.selecting),
    {
        match buffer {
            Some(buffer) => buffer.currently_selecting(),
            None => false,
        }
    }

    /// Notes that the mouse left the window.
    pub fn mouse_left_window(&mut self)
        ensures
            *final(self) == (Editor { region_type: RegionType::Unknown, ..*old(self) }),
    {
        self.region_type = RegionType::Unknown;
    }

    /// Forces the caret to be drawn: for one blink step where it is drawn
    /// already, for two where it is not.
    pub fn force_caret_visible(caret_is_visible: &mut bool, caret_timer: &mut u32)
        ensures
            *final(caret_is_visible),
            *final(caret_timer) == if *old(caret_is_visible) {
                1u32
            } else {
                2u32
            },
    {
        if *caret_is_visible {
            *caret_timer = 1;
        } else {
            *caret_is_visible = true;
            *caret_timer = 2;
        }
    }

    /// The kind of region that a part of the window is: text over the
    /// buffer, display over the status bar and the file tree, and none
    /// outside of them.
    pub open spec fn region_type_of(region: PointerRegion) -> Option<RegionType> {
        match region {
            PointerRegion::Buffer => Some(RegionType::Text),
            PointerRegion::StatusBar => Some(RegionType::Display),
            PointerRegion::FileTree => Some(RegionType::Display),
            PointerRegion::Outside => None,
        }
    }

    /// Takes the kind of region under the mouse and returns it where it
    /// changed, so that the window can be told. Outside of every region the
    /// kind stays as it was.
    pub fn update_region_type(&mut self) -> (changed: Option<RegionType>)
        ensures
            changed == match Self::region_type_of(old(self).pointer_region) {
                Some(kind) => if kind != old(self).region_type {
                    Some(kind)
                } else {
                    None
                },
                None => None,
            },
            *final(self) == (Editor {
                region_type: match Self::region_type_of(old(self).pointer_region) {
                    Some(kind) => kind,
                    None => old(self).region_type,
                },
                ..*old(self)
            }),
    {
        let kind: RegionType = match self.pointer_region {
            PointerRegion::Buffer => RegionType::Text,
            PointerRegion::StatusBar => RegionType::Display,
            PointerRegion::FileTree => RegionType::Display,
            PointerRegion::Outside => {
                return None;
            },
        };
        if self.region_type != kind {
            self.region_type = kind;
            Some(kind)
        } else {
            None
        }
    }

    /// Decides what goes to the language server after an edit of `buffer`
    /// that `change` announces, and whether fresh tokens are asked for.
    pub fn process_document_change(
        change: DidChangeNotification,
        buffer: &mut TextBuffer,
    ) -> (sent: (Option<DidChangeNotification>, bool))
        requires
            old(buffer).wf(),
            old(buffer)@.version < u64::MAX,
        ensures
            final(buffer).wf(),
            final(buffer)@ == if old(buffer)@.language.sync_mode() == SyncMode::Full {
                old(buffer)@.version_bumped()
            } else {
                old(buffer)@
            },
            sent.1 == (old(buffer)@.language.sync_mode() != SyncMode::Off),
            match sent.0 {
                Some(n) => Some(n@),
                None => None,
            } == outgoing(old(buffer)@, change@),
    {
        match buffer.language().sync_mode() {
            SyncMode::Incremental => (Some(change), true),
            SyncMode::Full => {
                let full = buffer.get_full_did_change_notification();
                (Some(full), true)
            },
            SyncMode::Off => (None, false),
        }
    }

    /// What follows from the error with code `code` by which a server
    /// answered a request: a request for semantic tokens is sent again where
    /// the server says that the content changed under it.
    pub fn handle_response_error(request_type: LSPRequestType, code: i64) -> (action:
        ResponseAction)
        ensures
            action == error_action(request_type, code),
    {
        match request_type {
            LSPRequestType::InitializationRequest => ResponseAction::Nothing,
            LSPRequestType::SemanticTokensRequest => {
                if code == CONTENT_MODIFIED {
                    ResponseAction::RequestTokens
                } else {
                    ResponseAction::Nothing
                }
            },
        }
    }

    /// Takes the result by which a server answered a request that was sent
    /// when `buffer` had version `version`. After the initialization the
    /// document is to be announced. Semantic tokens replace those of the
    /// buffer, unless the buffer has another version by now: then they are
    /// stale and dropped, and fresh ones are to be asked for. A result
    /// without token data changes nothing.
    pub fn handle_response_success(
        buffer: &mut TextBuffer,
        request_type: LSPRequestType,
        version: u64,
        tokens: Option<Vec<u32>>,
    ) -> (action: ResponseAction)
        ensures
            action == success_action(request_type, version == old(buffer)@.version, tokens is Some),
            final(buffer)@ == if request_type == LSPRequestType::SemanticTokensRequest && version
                == old(buffer)@.version && tokens is Some {
                old(buffer)@.tokens_replaced(tokens->Some_0@)
            } else {
                old(buffer)@
            },
            old(buffer).wf() ==> final(buffer).wf(),
    {
        match request_type {
            LSPRequestType::InitializationRequest => ResponseAction::OpenDocument,
            LSPRequestType::SemanticTokensRequest => match tokens {
                Some(data) => {
                    if version == buffer.version() {
                        buffer.update_semantic_tokens(data);
                        ResponseAction::Nothing
                    } else {
                        ResponseAction::RequestTokens
                    }
                },
                None => ResponseAction::Nothing,
            },
        }
    }

    /// Takes a server's response to a request of kind `request_type` that
    /// was sent when `buffer` had version `version`, and says what the
    /// platform has to send next.
    pub fn process_language_server_response(
        buffer: &mut TextBuffer,
        request_type: LSPRequestType,
        version: u64,
        response: ServerResponse,
    ) -> (action: ResponseAction)
        ensures
            action == match response {
                ServerResponse::Error(code) => error_action(request_type, code),
                ServerResponse::Tokens(_) => success_action(
                    request_type,
                    version == old(buffer)@.version,
                    true,
                ),
                ServerResponse::Other => success_action(
                    request_type,
                    version == old(buffer)@.version,
                    false,
                ),
            },
            final(buffer)@ == match response {
                ServerResponse::Tokens(data) => if request_type
                    == LSPRequestType::SemanticTokensRequest && version == old(buffer)@.version {
                    old(buffer)@.tokens_replaced(data@)
                } else {
                    old(buffer)@
                },
                _ => old(buffer)@,
            },
            old(buffer).wf() ==> final(buffer).wf(),
    {
        match response {
            ServerResponse::Error(code) => Self::handle_response_error(request_type, code),
            ServerResponse::Tokens(data) => Self::handle_response_success(
                buffer,
                request_type,
                version,
                Some(data),
            ),
            ServerResponse::Other => Self::handle_response_success(
                buffer,
                request_type,
                version,
                None,
            ),
        }
    }

    /// Carries out a key press on `buffer` and returns the change to
    /// announce, if the key edits the text.
    fn execute_key(
        buffer: &mut TextBuffer,
        key: i32,
        shift_down: bool,
        ctrl_down: bool,
        clipboard: Option<&str>,
    ) -> (change: Option<DidChangeNotification>)
        requires
            old(buffer).wf(),
            old(buffer)@.version < u64::MAX,
        ensures
            final(buffer).wf(),
            final(buffer)@ == key_applied(
                old(buffer)@,
                key,
                shift_down,
                ctrl_down,
                match clipboard {
                    Some(text) => Some(text@),
                    None => None,
                },
            ),
            change is Some == key_edits(key, ctrl_down, clipboard is Some),
            change is Some ==> change->Some_0@ == final(buffer)@.notification(
                key_events(
                    old(buffer)@,
                    key,
                    ctrl_down,
                    match clipboard {
                        Some(text) => Some(text@),
                        None => None,
                    },
                ),
            ),
    {
        if key == VK_LEFT {
            if ctrl_down {
                buffer.move_left_by_word(shift_down);
            } else {
                buffer.move_left(shift_down);
            }
            None
        } else if key == VK_RIGHT {
            if ctrl_down {
                buffer.move_right_by_word(shift_down);
            } else {
                buffer.move_right(shift_down);
            }
            None
        } else if key == VK_DOWN {
            buffer.set_selection(SelectionMode::Down, 1, shift_down);
            None
        } else if key == VK_UP {
            buffer.set_selection(SelectionMode::Up, 1, shift_down);
            None
        } else if key == VK_TAB {
            let tab = spaces_string(buffer.tab_width());
            Some(buffer.insert_chars(tab.as_str()))
        } else if key == VK_RETURN && !ctrl_down {
            Some(buffer.insert_newline())
        } else if key == VK_DELETE {
            if ctrl_down {
                Some(buffer.delete_right_by_word())
            } else {
                Some(buffer.delete_right())
            }
        } else if key == VK_BACK {
            if ctrl_down {
                Some(buffer.delete_left_by_word())
            } else {
                Some(buffer.delete_left())
            }
        } else if key == KEY_A && ctrl_down {
            buffer.select_all();
            None
        } else if key == KEY_X && ctrl_down {
            Some(buffer.cut_selection())
        } else if key == KEY_V && ctrl_down {
            buffer.paste(clipboard)
        } else {
            None
        }
    }

    /// Carries out a mouse move on `buffer`.
    fn execute_pointer_move(&self, buffer: &mut TextBuffer, moved: PointerMove)
        requires
            old(buffer).wf(),
        ensures
            final(buffer).wf(),
            final(buffer)@ == pointer_moved(
                old(buffer)@,
                moved,
                self.scroll_lines_per_mousemove as int,
            ),
    {
        match moved.vertical {
            Edge::After => buffer.scroll_down(self.scroll_lines_per_mousemove),
            Edge::Before => buffer.scroll_up(self.scroll_lines_per_mousemove),
            Edge::Within => {},
        }
        match moved.horizontal {
            Edge::After => buffer.scroll_right(self.scroll_lines_per_mousemove),
            Edge::Before => buffer.scroll_left(self.scroll_lines_per_mousemove),
            Edge::Within => {},
        }
        buffer.set_mouse_selection(crate::buffer::MouseSelectionMode::Move, moved.hit);
    }

    /// Lets the caret blink: a blink step draws or hides it, unless it is
    /// forced to stay visible; a click, a key or a char forces it.
    fn update_caret_blink(&mut self, cmd: &EditorCommand)
        ensures
            *final(self) == (Editor {
                caret_is_visible: caret_visible_after(
                    *cmd,
                    old(self).caret_is_visible,
                    old(self).force_visible_caret_timer,
                ),
                force_visible_caret_timer: caret_timer_after(
                    *cmd,
                    old(self).caret_is_visible,
                    old(self).force_visible_caret_timer,
                ),
                ..*old(self)
            }),
    {
        match *cmd {
            EditorCommand::CaretVisible => {
                if self.force_visible_caret_timer > 0 {
                    self.force_visible_caret_timer = self.force_visible_caret_timer - 1;
                }
                self.caret_is_visible = true;
            },
            EditorCommand::CaretInvisible => {
                if self.force_visible_caret_timer > 0 {
                    self.force_visible_caret_timer = self.force_visible_caret_timer - 1;
                    self.caret_is_visible = true;
                } else {
                    self.caret_is_visible = false;
                }
            },
            EditorCommand::LeftClick(_, _)
            | EditorCommand::LeftDoubleClick(_)
            | EditorCommand::KeyPressed(_, _, _)
            | EditorCommand::CharInsert(_) => {
                Self::force_caret_visible(
                    &mut self.caret_is_visible,
                    &mut self.force_visible_caret_timer,
                );
            },
            _ => {},
        }
    }

    /// The text that `cmd` puts on the clipboard: for a copy or a cut, the
    /// selected text or the caret's line, unless that is empty.
    fn clipboard_effect(buffer: &TextBuffer, cmd: &EditorCommand) -> (text: Option<String>)
        requires
            buffer.wf(),
        ensures
            match text {
                Some(text) => Some(text@),
                None => None,
            } == match *cmd {
                EditorCommand::KeyPressed(key, _, ctrl) => if ctrl && (key == KEY_C || key
                    == KEY_X) {
                    buffer@.copied()
                } else {
                    None
                },
                _ => None,
            },
    {
        match *cmd {
            EditorCommand::KeyPressed(key, _, ctrl_down) => {
                if ctrl_down && (key == KEY_C || key == KEY_X) {
                    buffer.copy_selection()
                } else {
                    None
                }
            },
            _ => None,
        }
    }

    /// The change of the font size that `cmd` asks for: a scroll with
    /// control down zooms, in when scrolling up and out when scrolling down.
    fn zoom_effect(cmd: &EditorCommand) -> (zoom: Option<Zoom>)
        ensures
            zoom == match *cmd {
                EditorCommand::ScrollUp(ctrl) => if ctrl {
                    Some(Zoom::In)
                } else {
                    None
                },
                EditorCommand::ScrollDown(ctrl) => if ctrl {
                    Some(Zoom::Out)
                } else {
                    None
                },
                _ => None,
            },
    {
        match *cmd {
            EditorCommand::ScrollUp(true) => Some(Zoom::In),
            EditorCommand::ScrollDown(true) => Some(Zoom::Out),
            _ => None,
        }
    }

    /// Carries out a command on `buffer` and returns the change to announce,
    /// if the command edits the text.
    fn apply_command(
        &self,
        buffer: &mut TextBuffer,
        cmd: &EditorCommand,
        clipboard: Option<&str>,
    ) -> (change: Option<DidChangeNotification>)
        requires
            old(buffer).wf(),
            old(buffer)@.version < u64::MAX,
        ensures
            final(buffer).wf(),
            final(buffer)@ == command_applied(
                old(buffer)@,
                *cmd,
                match clipboard {
                    Some(text) => Some(text@),
                    None => None,
                },
                self.scroll_lines_per_roll as int,
                self.scroll_lines_per_mousemove as int,
            ),
            final(buffer)@.version <= old(buffer)@.version + 1,
            final(buffer)@.language == old(buffer)@.language,
            change is Some == command_edits(*cmd, clipboard is Some),
            change is Some ==> change->Some_0@ == final(buffer)@.notification(
                command_events(
                    old(buffer)@,
                    *cmd,
                    match clipboard {
                        Some(text) => Some(text@),
                        None => None,
                    },
                ),
            ),
    {
        reveal(command_applied);
        reveal(command_events);
        match *cmd {
            EditorCommand::ScrollUp(ctrl_down) => {
                if !ctrl_down {
                    buffer.scroll_up(self.scroll_lines_per_roll);
                }
                None
            },
            EditorCommand::ScrollDown(ctrl_down) => {
                if !ctrl_down {
                    buffer.scroll_down(self.scroll_lines_per_roll);
                }
                None
            },
            EditorCommand::LeftClick(hit, shift_down) => {
                buffer.left_click(hit, shift_down);
                None
            },
            EditorCommand::LeftDoubleClick(hit) => {
                buffer.left_double_click(hit);
                None
            },
            EditorCommand::LeftRelease => {
                buffer.left_release();
                None
            },
            EditorCommand::MouseMove(moved) => {
                self.execute_pointer_move(buffer, moved);
                None
            },
            EditorCommand::KeyPressed(key, shift_down, ctrl_down) => Self::execute_key(
                buffer,
                key,
                shift_down,
                ctrl_down,
                clipboard,
            ),
            EditorCommand::CharInsert(character) => Some(buffer.insert_char(character)),
            _ => None,
        }
    }

    /// Carries out a command on `buffer` and says what the platform has to
    /// do afterwards. `clipboard` is the text that the clipboard holds, if
    /// the platform could read it; only a paste looks at it.
    pub fn execute_buffer_command(
        &mut self,
        buffer: &mut TextBuffer,
        cmd: &EditorCommand,
        clipboard: Option<&str>,
    ) -> (effects: Effects)
        requires
            old(buffer).wf(),
            old(buffer)@.version + 2 <= u64::MAX,
        ensures
            final(buffer).wf(),
            final(buffer)@ == buffer_after(
                old(buffer)@,
                *cmd,
                match clipboard {
                    Some(text) => Some(text@),
                    None => None,
                },
                old(self).scroll_lines_per_roll as int,
                old(self).scroll_lines_per_mousemove as int,
            ),
            effects@ == effects_of(
                old(buffer)@,
                *cmd,
                match clipboard {
                    Some(text) => Some(text@),
                    None => None,
                },
                old(self).scroll_lines_per_roll as int,
                old(self).scroll_lines_per_mousemove as int,
            ),
            *final(self) == (Editor {
                caret_is_visible: caret_visible_after(
                    *cmd,
                    old(self).caret_is_visible,
                    old(self).force_visible_caret_timer,
                ),
                force_visible_caret_timer: caret_timer_after(
                    *cmd,
                    old(self).caret_is_visible,
                    old(self).force_visible_caret_timer,
                ),
                ..*old(self)
            }),
    {
        let copy = Self::clipboard_effect(buffer, cmd);
        let zoom = Self::zoom_effect(cmd);
        let change = self.apply_command(buffer, cmd, clipboard);
        self.update_caret_blink(cmd);
        let sent = match change {
            Some(change) => Self::process_document_change(change, buffer),
            None => (None, false),
        };
        buffer.on_editor_action();
        Effects { notification: sent.0, request_tokens: sent.1, clipboard: copy, zoom }
    }

    /// Takes a command: a move of a mouse that is not captured first
    /// updates the part of the window under the mouse and the kind of
    /// region; then the command goes to the buffer if the mouse is over it,
    /// and nowhere otherwise. Returns the kind of region where it changed,
    /// and what the platform has to do.
    pub fn execute_command(
        &mut self,
        buffer: &mut TextBuffer,
        cmd: &EditorCommand,
        clipboard: Option<&str>,
    ) -> (outcome: (Option<RegionType>, Effects))
        requires
            old(buffer).wf(),
            old(buffer)@.version + 2 <= u64::MAX,
        ensures
            final(buffer).wf(),
            final(self).pointer_region == old(self).region_after(*cmd),
            outcome.0 == old(self).region_change(*cmd),
            final(self).region_type == match old(self).region_change(*cmd) {
                Some(kind) => kind,
                None => old(self).region_type,
            },
            final(self).pointer_region == PointerRegion::Buffer ==> final(buffer)@ == buffer_after(
                old(buffer)@,
                *cmd,
                match clipboard {
                    Some(text) => Some(text@),
                    None => None,
                },
                old(self).scroll_lines_per_roll as int,
                old(self).scroll_lines_per_mousemove as int,
            ) && outcome.1@ == effects_of(
                old(buffer)@,
                *cmd,
                match clipboard {
                    Some(text) => Some(text@),
                    None => None,
                },
                old(self).scroll_lines_per_roll as int,
                old(self).scroll_lines_per_mousemove as int,
            ) && final(self).caret_is_visible == caret_visible_after(
                *cmd,
                old(self).caret_is_visible,
                old(self).force_visible_caret_timer,
            ) && final(self).force_visible_caret_timer == caret_timer_after(
                *cmd,
                old(self).caret_is_visible,
                old(self).force_visible_caret_timer,
            ),
            final(self).pointer_region != PointerRegion::Buffer ==> final(buffer)@ == old(buffer)@
                && outcome.1@ == (EffectsView {
                notification: None,
                request_tokens: false,
                clipboard: None,
                zoom: None,
            }) && final(self).caret_is_visible == old(self).caret_is_visible
                && final(self).force_visible_caret_timer == old(self).force_visible_caret_timer,
            final(self).mouse_pos_captured == old(self).mouse_pos_captured,
            final(self).scroll_lines_per_roll == old(self).scroll_lines_per_roll,
            final(self).scroll_lines_per_mousemove == old(self).scroll_lines_per_mousemove,
    {
        let mut changed: Option<RegionType> = None;
        match *cmd {
            EditorCommand::MouseMove(moved) => {
                if !self.mouse_pos_captured {
                    self.pointer_region = moved.region;
                    changed = self.update_region_type();
                }
            },
            _ => {},
        }
        if self.pointer_region == PointerRegion::Buffer {
            let effects = self.execute_buffer_command(buffer, cmd, clipboard);
            (changed, effects)
        } else {
            (
                changed,
                Effects { notification: None, request_tokens: false, clipboard: None, zoom: None },
            )
        }
    }

    /// The part of the window that the mouse is over after `cmd`: where a
    /// move of a mouse that is not captured put it, else where it was.
    pub open spec fn region_after(self, cmd: EditorCommand) -> PointerRegion {
        match cmd {
            EditorCommand::MouseMove(moved) => if self.mouse_pos_captured {
                self.pointer_region
            } else {
                moved.region
            },
            _ => self.pointer_region,
        }
    }

    /// The kind of region to tell the window after `cmd`: the kind of the
    /// region that a move of a mouse that is not captured led to, where it
    /// is another than before.
    pub open spec fn region_change(self, cmd: EditorCommand) -> Option<RegionType> {
        match cmd {
            EditorCommand::MouseMove(moved) => if self.mouse_pos_captured {
                None
            } else {
                match Self::region_type_of(moved.region) {
                    Some(kind) => if kind != self.region_type {
                        Some(kind)
                    } else {
                        None
                    },
                    None => None,
                }
            },
            _ => None,
        }
    }
}

} // verus!
