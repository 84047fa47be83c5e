use vstd::prelude::*;

use crate::json::str_eq;
use vstd::string::StringExecFns;
use crate::state::{AppState, Progress, StatusMessage};

verus! {

pub const PICK_FILE_EVENT: &'static str = "pick_file";
pub const SEND_FILE_EVENT: &'static str = "send_file";
pub const CANCEL_SEND_EVENT: &'static str = "cancel_send";

/// The status line before anything happened.
pub const STATUS_IDLE: &'static str = "等待操作";
pub const LABEL_NO_FILE: &'static str = "未选择文件";
pub const LABEL_SEND: &'static str = "发送到设备";
pub const LABEL_CANCEL: &'static str = "取消发送";

/// Colour of the status line while sending.
pub const COLOR_BUSY: &'static str = "#9DA7B1";
/// Colour of the status line after a success.
pub const COLOR_SUCCESS: &'static str = "#7AAE92";
/// Colour of the status line after a failure.
pub const COLOR_FAILURE: &'static str = "#B07A7A";

/// What the main screen shows, read from the state at one moment.
#[derive(Debug)]
pub struct UiSnapshot {
    pub root_element_id: Option<String>,
    pub file_name: Option<String>,
    pub file_size: usize,
    pub status_message: Option<StatusMessage>,
    pub is_success_message: bool,
    pub is_sending: bool,
    pub progress: Progress,
    pub has_file: bool,
}

/// The snapshot shows `s`.
pub open spec fn snapshot_of(snap: UiSnapshot, s: AppState) -> bool {
    &&& snap.root_element_id == s.root_element_id
    &&& snap.file_name == s.file_name
    &&& snap.file_size == s.file_size
    &&& snap.status_message == s.status_message
    &&& snap.is_success_message == s.is_success_message
    &&& snap.is_sending == s.is_sending
    &&& snap.progress == s.progress
    &&& snap.has_file == s.file_text is Some
}

fn clone_opt_string(s: &Option<String>) -> (r: Option<String>)
    ensures
        r == *s,
{
    match s {
        Some(x) => Some(x.clone()),
        None => None,
    }
}

/// Reads what the main screen shows.
pub fn snapshot_state(state: &AppState) -> (r: UiSnapshot)
    ensures
        snapshot_of(r, *state),
{
    UiSnapshot {
        root_element_id: clone_opt_string(&state.root_element_id),
        file_name: clone_opt_string(&state.file_name),
        file_size: state.file_size,
        status_message: state.status_message,
        is_success_message: state.is_success_message,
        is_sending: state.is_sending,
        progress: state.progress,
        has_file: state.file_text.is_some(),
    }
}

/// The kinds of UI events the host reports.
#[derive(PartialEq, Eq, Structural, Clone, Copy, Debug)]
pub enum UiEventKind {
    Click,
    Other,
}

/// What a UI event asks the sender to do.
#[derive(PartialEq, Eq, Structural, Clone, Copy, Debug)]
pub enum UiAction {
    PickFile,
    SendFile,
    CancelSend,
    Nothing,
}

/// Maps a UI event to the action it asks for: only clicks on the three
/// buttons do anything.
pub fn ui_event_processor(kind: UiEventKind, event: &str) -> (r: UiAction)
    ensures
        r == (if kind != UiEventKind::Click {
            UiAction::Nothing
        } else if event@ == PICK_FILE_EVENT@ {
            UiAction::PickFile
        } else if event@ == SEND_FILE_EVENT@ {
            UiAction::SendFile
        } else if event@ == CANCEL_SEND_EVENT@ {
            UiAction::CancelSend
        } else {
            UiAction::Nothing
        }),
{
    match kind {
        UiEventKind::Click => {
            if str_eq(event, PICK_FILE_EVENT) {
                UiAction::PickFile
            } else if str_eq(event, SEND_FILE_EVENT) {
                UiAction::SendFile
            } else if str_eq(event, CANCEL_SEND_EVENT) {
                UiAction::CancelSend
            } else {
                UiAction::Nothing
            }
        },
        UiEventKind::Other => UiAction::Nothing,
    }
}

/// Draws the main screen into `element_id`, which becomes the root that
/// later redraws go to. Gives back what to draw.
pub fn render_main_ui(state: &mut AppState, element_id: &str) -> (r: UiSnapshot)
    ensures
        old(state).wf() ==> final(state).wf(),
        final(state).root_element_id matches Some(id) && id@ == element_id@,
        *final(state) == (AppState { root_element_id: final(state).root_element_id, ..*old(state) }),
        snapshot_of(r, *final(state)),
{
    state.root_element_id = Some(element_id.to_owned());
    snapshot_state(state)
}

/// Redraws the main screen into its root, once there is one: gives back
/// the root and what to draw there.
pub fn rerender(state: &AppState) -> (r: Option<(String, UiSnapshot)>)
    ensures
        match state.root_element_id {
            None => r is None,
            Some(id) => r matches Some((rid, snap)) && rid == id && snapshot_of(snap, *state),
        },
{
    let snapshot = snapshot_state(state);
    match &snapshot.root_element_id {
        Some(id) => Some((id.clone(), snapshot)),
        None => None,
    }
}

/// The line naming the chosen file.
#[derive(Debug, PartialEq, Eq)]
pub enum FileLabel {
    /// No file chosen.
    NoFile,
    /// The file's name alone (an empty file).
    Name(String),
    /// The file's name and its size in bytes.
    NameAndSize(String, usize),
}

/// Everything on the main screen that depends on the state.
#[derive(Debug)]
pub struct MainUi {
    pub file_label: FileLabel,
    /// Fills the progress bar and its percentage line.
    pub progress: Progress,
    /// The bar shows a filled part at all.
    pub bar_filled: bool,
    pub status: StatusMessage,
    pub status_color: &'static str,
    pub pick_enabled: bool,
    pub send_label: &'static str,
    pub send_event: &'static str,
    pub send_enabled: bool,
}

pub open spec fn spec_file_label_matches(label: FileLabel, snap: UiSnapshot) -> bool {
    match snap.file_name {
        None => label is NoFile,
        Some(name) => if snap.file_size > 0 {
            label == FileLabel::NameAndSize(name, snap.file_size)
        } else {
            label == FileLabel::Name(name)
        },
    }
}

pub open spec fn spec_status_color(snap: UiSnapshot) -> &'static str {
    if snap.is_sending {
        COLOR_BUSY
    } else if snap.is_success_message {
        COLOR_SUCCESS
    } else {
        COLOR_FAILURE
    }
}

/// Works out what the main screen shows for `snapshot`.
pub fn build_main_ui(snapshot: &UiSnapshot) -> (r: MainUi)
    ensures
        spec_file_label_matches(r.file_label, *snapshot),
        r.progress == snapshot.progress,
        r.bar_filled == (snapshot.progress.done > 0),
        r.status == match snapshot.status_message {
            Some(m) => m,
            None => StatusMessage::Text(STATUS_IDLE),
        },
        r.status_color == spec_status_color(*snapshot),
        r.pick_enabled == !snapshot.is_sending,
        r.send_label == (if snapshot.is_sending { LABEL_CANCEL } else { LABEL_SEND }),
        r.send_event == (if snapshot.is_sending { CANCEL_SEND_EVENT } else { SEND_FILE_EVENT }),
        r.send_enabled == (snapshot.has_file || snapshot.is_sending),
{
    let file_label = match &snapshot.file_name {
        Some(name) => if snapshot.file_size > 0 {
            FileLabel::NameAndSize(name.clone(), snapshot.file_size)
        } else {
            FileLabel::Name(name.clone())
        },
        None => FileLabel::NoFile,
    };
    let status = match snapshot.status_message {
        Some(m) => m,
        None => StatusMessage::Text(STATUS_IDLE),
    };
    let status_color = if snapshot.is_sending {
        COLOR_BUSY
    } else if snapshot.is_success_message {
        COLOR_SUCCESS
    } else {
        COLOR_FAILURE
    };
    let (send_label, send_event) = if snapshot.is_sending {
        (LABEL_CANCEL, CANCEL_SEND_EVENT)
    } else {
        (LABEL_SEND, SEND_FILE_EVENT)
    };
    MainUi {
        file_label,
        progress: snapshot.progress,
        bar_filled: snapshot.progress.done > 0,
        status,
        status_color,
        pick_enabled: !snapshot.is_sending,
        send_label,
        send_event,
        send_enabled: snapshot.has_file || snapshot.is_sending,
    }
}


// ----------------------------------------------------------------------
// The element tree of the main screen
// ----------------------------------------------------------------------

/// Width of the progress bar, in pixels.
pub const PROGRESS_BAR_WIDTH: u32 = 260;

pub const COLOR_BORDER: &'static str = "#2F353D";
pub const COLOR_MUTED: &'static str = "#9DA7B1";
pub const COLOR_TEXT: &'static str = "#E6EDF3";
pub const TITLE_FILE_INFO: &'static str = "文件信息";
pub const LABEL_PICK: &'static str = "选择文件";
pub const HELPER_TEXT: &'static str = "提示：推荐使用 UTF-8 文本文件";
pub const BAR_TRANSITION: &'static str = "width 0.2s ease";

#[derive(Clone, Copy, Debug, PartialEq, Eq)]
pub enum ElementKind {
    Div,
    P,
    Button,
}

#[derive(Clone, Copy, Debug, PartialEq, Eq)]
pub enum Direction {
    Row,
    Column,
}

/// One property the host's element builder sets.
#[derive(Clone, Copy, Debug, PartialEq, Eq)]
pub enum Attr {
    WidthFull,
    HeightFull,
    Width(u32),
    Height(u32),
    Padding(u32),
    Radius(u32),
    Border(u32, &'static str),
    Size(u32),
    TextColor(&'static str),
    MarginTop(u32),
    MarginLeft(u32),
    Transition(&'static str),
    Disabled,
    /// Opacity in percent.
    Opacity(u32),
    Flex,
    FlexDirection(Direction),
    AlignCenter,
    JustifyCenter,
    /// A click sends this event id.
    OnClick(&'static str),
}

/// An element of the screen with its properties and children.
#[derive(Debug, PartialEq)]
pub struct UiElement {
    pub kind: ElementKind,
    pub text: Option<String>,
    pub attrs: Vec<Attr>,
    pub children: Vec<UiElement>,
}

/// The mathematical value of an element.
pub struct ElementView {
    pub kind: ElementKind,
    pub text: Option<Seq<char>>,
    pub attrs: Seq<Attr>,
    pub children: Seq<ElementView>,
}

pub open spec fn opt_text(t: Option<String>) -> Option<Seq<char>> {
    match t {
        Some(s) => Some(s@),
        None => None,
    }
}

pub open spec fn element_view(e: UiElement) -> ElementView
    decreases e,
{
    ElementView {
        kind: e.kind,
        text: opt_text(e.text),
        attrs: e.attrs@,
        children: Seq::new(
            e.children@.len(),
            |i: int|
                if 0 <= i < e.children@.len() {
                    element_view(e.children@[i])
                } else {
                    ElementView { kind: ElementKind::Div, text: None, attrs: Seq::empty(), children: Seq::empty() }
                },
        ),
    }
}

impl View for UiElement {
    type V = ElementView;

    open spec fn view(&self) -> ElementView {
        element_view(*self)
    }
}

pub open spec fn node(kind: ElementKind, text: Option<Seq<char>>, attrs: Seq<Attr>, children: Seq<ElementView>) -> ElementView {
    ElementView { kind, text, attrs, children }
}

/// The figures of the screen that are decimals, worked out by the host's
/// side: the file size, the bar's filled width, the percentage line, and
/// the status line of a transfer in progress.
pub struct ScreenFigures {
    pub size_text: String,
    pub fill_width: u32,
    pub progress_text: String,
    pub transfer_text: String,
}

/// The line naming the file.
pub open spec fn spec_file_label_text(label: FileLabel, size_text: Seq<char>) -> Seq<char> {
    match label {
        FileLabel::NoFile => LABEL_NO_FILE@,
        FileLabel::Name(name) => name@,
        FileLabel::NameAndSize(name, _) => name@ + " ("@ + size_text + ")"@,
    }
}

/// The status line.
pub open spec fn spec_status_text(status: StatusMessage, transfer_text: Seq<char>) -> Seq<char> {
    match status {
        StatusMessage::Text(t) => t@,
        StatusMessage::Transferring { .. } => transfer_text,
    }
}

pub open spec fn spec_pick_button(ui: MainUi) -> ElementView {
    node(
        ElementKind::Button,
        Some(LABEL_PICK@),
        seq![Attr::Padding(10), Attr::Radius(12), Attr::Border(1, COLOR_BORDER), Attr::TextColor(COLOR_TEXT), Attr::OnClick(PICK_FILE_EVENT)]
            + if ui.pick_enabled { Seq::empty() } else { seq![Attr::Disabled, Attr::Opacity(60)] },
        Seq::empty(),
    )
}

pub open spec fn spec_send_button(ui: MainUi) -> ElementView {
    node(
        ElementKind::Button,
        Some(ui.send_label@),
        seq![
            Attr::Padding(10),
            Attr::Radius(12),
            Attr::Border(1, COLOR_BORDER),
            Attr::TextColor(COLOR_TEXT),
            Attr::MarginLeft(12),
            Attr::OnClick(ui.send_event),
        ] + if ui.send_enabled { Seq::empty() } else { seq![Attr::Disabled, Attr::Opacity(50)] },
        Seq::empty(),
    )
}

pub open spec fn spec_file_card(ui: MainUi, f: ScreenFigures) -> ElementView {
    node(
        ElementKind::Div,
        None,
        seq![Attr::WidthFull, Attr::Padding(16), Attr::Radius(16), Attr::Border(1, COLOR_BORDER)],
        seq![
            node(ElementKind::P, Some(TITLE_FILE_INFO@), seq![Attr::Size(12), Attr::TextColor(COLOR_MUTED)], Seq::empty()),
            node(
                ElementKind::P,
                Some(spec_file_label_text(ui.file_label, f.size_text@)),
                seq![Attr::Size(18), Attr::TextColor(COLOR_TEXT), Attr::MarginTop(6)],
                Seq::empty(),
            ),
        ],
    )
}

pub open spec fn spec_progress_block(ui: MainUi, f: ScreenFigures) -> ElementView {
    node(
        ElementKind::Div,
        None,
        seq![Attr::WidthFull, Attr::Padding(16), Attr::Radius(16), Attr::Border(1, COLOR_BORDER), Attr::MarginTop(16)],
        seq![
            node(ElementKind::P, Some(f.progress_text@), seq![Attr::Size(12), Attr::TextColor(COLOR_MUTED)], Seq::empty()),
            node(
                ElementKind::Div,
                None,
                seq![
                    Attr::Width(PROGRESS_BAR_WIDTH),
                    Attr::Height(12),
                    Attr::Radius(999),
                    Attr::Border(1, COLOR_BORDER),
                    Attr::MarginTop(8),
                ],
                seq![
                    node(
                        ElementKind::Div,
                        None,
                        seq![
                            Attr::Width(f.fill_width),
                            Attr::Height(12),
                            Attr::Radius(999),
                            Attr::Border(1, COLOR_MUTED),
                            Attr::Transition(BAR_TRANSITION),
                        ],
                        Seq::empty(),
                    ),
                ],
            ),
            node(
                ElementKind::P,
                Some(spec_status_text(ui.status, f.transfer_text@)),
                seq![Attr::Size(14), Attr::TextColor(ui.status_color), Attr::MarginTop(6)],
                Seq::empty(),
            ),
        ],
    )
}

/// The main screen.
pub open spec fn spec_main_element(ui: MainUi, f: ScreenFigures) -> ElementView {
    node(
        ElementKind::Div,
        None,
        seq![Attr::Flex, Attr::FlexDirection(Direction::Column), Attr::WidthFull, Attr::HeightFull, Attr::Padding(20)],
        seq![
            spec_file_card(ui, f),
            spec_progress_block(ui, f),
            node(
                ElementKind::Div,
                None,
                seq![Attr::Flex, Attr::FlexDirection(Direction::Row), Attr::AlignCenter, Attr::JustifyCenter, Attr::MarginTop(20)],
                seq![spec_pick_button(ui), spec_send_button(ui)],
            ),
            node(
                ElementKind::P,
                Some(HELPER_TEXT@),
                seq![Attr::Size(12), Attr::TextColor(COLOR_MUTED), Attr::MarginTop(16)],
                Seq::empty(),
            ),
        ],
    )
}

/// Every click event among `attrs` is `event`, and there is one.
pub open spec fn clicks_only(attrs: Seq<Attr>, event: &'static str) -> bool {
    &&& exists|i: int| 0 <= i < attrs.len() && attrs[i] == Attr::OnClick(event)
    &&& forall|i: int| 0 <= i < attrs.len() && #[trigger] attrs[i] is OnClick ==> attrs[i] == Attr::OnClick(event)
}

/// On the main screen worked out for a sender that is `sending` or not (as
/// `build_main_ui` gives it), the second button is labelled "cancel" and
/// clicking it sends `CANCEL_SEND_EVENT` while sending, and is labelled
/// "send" and sends `SEND_FILE_EVENT` otherwise; the first button always
/// picks a file.
pub proof fn lemma_buttons_send_their_events(ui: MainUi, f: ScreenFigures, sending: bool)
    requires
        ui.send_label == (if sending { LABEL_CANCEL } else { LABEL_SEND }),
        ui.send_event == (if sending { CANCEL_SEND_EVENT } else { SEND_FILE_EVENT }),
    ensures
        ({
            let buttons = spec_main_element(ui, f).children[2].children;
            &&& buttons.len() == 2
            &&& buttons[0].kind == ElementKind::Button
            &&& buttons[0].text == Some(LABEL_PICK@)
            &&& clicks_only(buttons[0].attrs, PICK_FILE_EVENT)
            &&& buttons[1].kind == ElementKind::Button
            &&& buttons[1].text == Some((if sending { LABEL_CANCEL } else { LABEL_SEND })@)
            &&& clicks_only(buttons[1].attrs, if sending { CANCEL_SEND_EVENT } else { SEND_FILE_EVENT })
        }),
{
    let pick = spec_pick_button(ui).attrs;
    let send = spec_send_button(ui).attrs;
    assert(pick[4] == Attr::OnClick(PICK_FILE_EVENT));
    assert(send[5] == Attr::OnClick(ui.send_event));
}

fn element(kind: ElementKind, text: Option<String>, attrs: Vec<Attr>, children: Vec<UiElement>) -> (r: UiElement)
    ensures
        r@ == node(kind, opt_text(text), attrs@, Seq::new(children@.len(), |i: int| children@[i]@)),
{
    let r = UiElement { kind, text, attrs, children };
    proof {
        assert(r@.children =~= Seq::new(children@.len(), |i: int| children@[i]@));
    }
    r
}

fn leaf(kind: ElementKind, text: Option<String>, attrs: Vec<Attr>) -> (r: UiElement)
    ensures
        r@ == node(kind, opt_text(text), attrs@, Seq::empty()),
{
    let r = element(kind, text, attrs, Vec::new());
    proof {
        assert(r@.children =~= Seq::<ElementView>::empty());
    }
    r
}

fn file_label_text(label: &FileLabel, size_text: &String) -> (r: String)
    ensures
        r@ == spec_file_label_text(*label, size_text@),
{
    match label {
        FileLabel::NoFile => LABEL_NO_FILE.to_owned(),
        FileLabel::Name(name) => name.clone(),
        FileLabel::NameAndSize(name, _) => {
            let mut s = name.clone();
            s.append(" (");
            s.append(size_text.as_str());
            s.append(")");
            s
        },
    }
}

fn status_text(status: &StatusMessage, transfer_text: &String) -> (r: String)
    ensures
        r@ == spec_status_text(*status, transfer_text@),
{
    match status {
        StatusMessage::Text(t) => (*t).to_owned(),
        StatusMessage::Transferring { .. } => transfer_text.clone(),
    }
}

fn pick_button(ui: &MainUi) -> (r: UiElement)
    ensures
        r@ == spec_pick_button(*ui),
{
    let mut attrs = vec![
        Attr::Padding(10),
        Attr::Radius(12),
        Attr::Border(1, COLOR_BORDER),
        Attr::TextColor(COLOR_TEXT),
        Attr::OnClick(PICK_FILE_EVENT),
    ];
    if !ui.pick_enabled {
        attrs.push(Attr::Disabled);
        attrs.push(Attr::Opacity(60));
    }
    let r = leaf(ElementKind::Button, Some(LABEL_PICK.to_owned()), attrs);
    proof {
        assert(r@.attrs =~= spec_pick_button(*ui).attrs);
    }
    r
}

fn send_button(ui: &MainUi) -> (r: UiElement)
    ensures
        r@ == spec_send_button(*ui),
{
    let mut attrs = vec![
        Attr::Padding(10),
        Attr::Radius(12),
        Attr::Border(1, COLOR_BORDER),
        Attr::TextColor(COLOR_TEXT),
        Attr::MarginLeft(12),
        Attr::OnClick(ui.send_event),
    ];
    if !ui.send_enabled {
        attrs.push(Attr::Disabled);
        attrs.push(Attr::Opacity(50));
    }
    let r = leaf(ElementKind::Button, Some(ui.send_label.to_owned()), attrs);
    proof {
        assert(r@.attrs =~= spec_send_button(*ui).attrs);
    }
    r
}

fn file_card(ui: &MainUi, f: &ScreenFigures) -> (r: UiElement)
    ensures
        r@ == spec_file_card(*ui, *f),
{
    let title = leaf(ElementKind::P, Some(TITLE_FILE_INFO.to_owned()), vec![Attr::Size(12), Attr::TextColor(COLOR_MUTED)]);
    let label = leaf(
        ElementKind::P,
        Some(file_label_text(&ui.file_label, &f.size_text)),
        vec![Attr::Size(18), Attr::TextColor(COLOR_TEXT), Attr::MarginTop(6)],
    );
    let ghost kids = seq![title@, label@];
    let r = element(
        ElementKind::Div,
        None,
        vec![Attr::WidthFull, Attr::Padding(16), Attr::Radius(16), Attr::Border(1, COLOR_BORDER)],
        vec![title, label],
    );
    proof {
        assert(r@.children =~= kids);
    }
    r
}

fn progress_block(ui: &MainUi, f: &ScreenFigures) -> (r: UiElement)
    ensures
        r@ == spec_progress_block(*ui, *f),
{
    let label = leaf(ElementKind::P, Some(f.progress_text.clone()), vec![Attr::Size(12), Attr::TextColor(COLOR_MUTED)]);
    let fill = leaf(
        ElementKind::Div,
        None,
        vec![
            Attr::Width(f.fill_width),
            Attr::Height(12),
            Attr::Radius(999),
            Attr::Border(1, COLOR_MUTED),
            Attr::Transition(BAR_TRANSITION),
        ],
    );
    let ghost fill_view = fill@;
    let bar = element(
        ElementKind::Div,
        None,
        vec![
            Attr::Width(PROGRESS_BAR_WIDTH),
            Attr::Height(12),
            Attr::Radius(999),
            Attr::Border(1, COLOR_BORDER),
            Attr::MarginTop(8),
        ],
        vec![fill],
    );
    proof {
        assert(bar@.children =~= seq![fill_view]);
    }
    let status = leaf(
        ElementKind::P,
        Some(status_text(&ui.status, &f.transfer_text)),
        vec![Attr::Size(14), Attr::TextColor(ui.status_color), Attr::MarginTop(6)],
    );
    let ghost kids = seq![label@, bar@, status@];
    let r = element(
        ElementKind::Div,
        None,
        vec![Attr::WidthFull, Attr::Padding(16), Attr::Radius(16), Attr::Border(1, COLOR_BORDER), Attr::MarginTop(16)],
        vec![label, bar, status],
    );
    proof {
        assert(r@.children =~= kids);
    }
    r
}

/// The element tree of the main screen, given what it shows and the
/// figures worked out in decimals.
pub fn main_element(ui: &MainUi, figures: &ScreenFigures) -> (r: UiElement)
    ensures
        r@ == spec_main_element(*ui, *figures),
{
    let card = file_card(ui, figures);
    let block = progress_block(ui, figures);
    let pick = pick_button(ui);
    let send = send_button(ui);
    let ghost button_views = seq![pick@, send@];
    let buttons = element(
        ElementKind::Div,
        None,
        vec![Attr::Flex, Attr::FlexDirection(Direction::Row), Attr::AlignCenter, Attr::JustifyCenter, Attr::MarginTop(20)],
        vec![pick, send],
    );
    proof {
        assert(buttons@.children =~= button_views);
    }
    let helper = leaf(
        ElementKind::P,
        Some(HELPER_TEXT.to_owned()),
        vec![Attr::Size(12), Attr::TextColor(COLOR_MUTED), Attr::MarginTop(16)],
    );
    let ghost kids = seq![card@, block@, buttons@, helper@];
    let r = element(
        ElementKind::Div,
        None,
        vec![Attr::Flex, Attr::FlexDirection(Direction::Column), Attr::WidthFull, Attr::HeightFull, Attr::Padding(20)],
        vec![card, block, buttons, helper],
    );
    proof {
        assert(r@.children =~= kids);
    }
    r
}

} // verus!
