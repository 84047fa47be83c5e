use vstd::prelude::*;
use vstd::utf8::*;

use crate::chunking::{
    chunk_bytes, compute_chunk_offsets, is_chunking, lemma_single_offset_iff_empty, text_between,
};
use crate::json::{json_text, opt_json_view, parse_json, spec_json_text, spec_parse_json, Json, JsonView};
use crate::protocol::{
    cancel_payload, chunk_payload, classify_message, payload_text, spec_cancel_payload,
    spec_chunk_payload, spec_classify, spec_message_value, spec_payload_text, spec_start_payload, start_payload,
    u64_to_usize, DeviceMessage,
};
use crate::state::{AppState, Progress, SpeedNote, StatusMessage, TransferState};

verus! {

/// The package name of the reader app on the band.
pub const PACKAGE_NAME: &'static str = "com.bandbbs.ebook";

/// The size the sender aims at for each chunk.
pub const CHUNK_TARGET_BYTES: usize = 32 * 1024;

/// A device that already uses more storage than this gets no file.
pub const DEVICE_USAGE_LIMIT_BYTES: u64 = 25 * 1024 * 1024;

pub const STATUS_PICK_CANCELLED: &'static str = "已取消选择文件";
pub const STATUS_FILE_READY: &'static str = "已选择文件，准备发送";
pub const STATUS_NOT_UTF8: &'static str = "文件不是 UTF-8 文本，无法发送";
pub const STATUS_NO_FILE: &'static str = "请先选择文件";
pub const STATUS_CHECKING_DEVICE: &'static str = "正在检查设备...";
pub const STATUS_LAUNCH_FAILED: &'static str = "启动应用失败，请重试";
pub const STATUS_FILE_EMPTY: &'static str = "文件为空，无法发送";
pub const STATUS_WAITING_DEVICE: &'static str = "等待设备响应...";
pub const STATUS_SEND_FAILED: &'static str = "发送失败，请重试";
pub const STATUS_NOT_SENDING: &'static str = "未在发送中";
pub const STATUS_SEND_CANCELLED: &'static str = "已取消发送";
pub const STATUS_RETRYING: &'static str = "传输中断，正在重试...";
pub const STATUS_SUCCESS: &'static str = "发送成功";
pub const STATUS_TRANSFER_CANCELLED: &'static str = "传输已取消";
pub const STATUS_STORAGE_FULL: &'static str = "设备存储空间不足";
pub const STATUS_CHUNK_FAILED: &'static str = "发送分片失败";
pub const STATUS_NO_DEVICE: &'static str = "未找到设备";
pub const STATUS_APP_MISSING: &'static str = "请先安装 BandBBS 客户端";
pub const STATUS_APP_LIST_FAILED: &'static str = "获取应用列表失败";

/// A message for the host to send to a device: `text` is the JSON text of
/// `payload`.
#[derive(Debug)]
pub struct Outgoing {
    pub device_addr: String,
    pub payload: Json,
    pub text: String,
}

impl View for Outgoing {
    type V = (Seq<char>, JsonView);

    open spec fn view(&self) -> (Seq<char>, JsonView) {
        (self.device_addr@, self.payload@)
    }
}

pub open spec fn opt_view(o: Option<Outgoing>) -> Option<(Seq<char>, JsonView)> {
    match o {
        Some(o) => Some(o@),
        None => None,
    }
}

/// The message, if any, goes out as the JSON text of its payload.
pub open spec fn sent_as_json(o: Option<Outgoing>) -> bool {
    o matches Some(m) ==> m.text@ == spec_json_text(m.payload@)
}

fn outgoing(device_addr: String, payload: Json) -> (o: Outgoing)
    ensures
        o@ == (device_addr@, payload@),
        o.device_addr == device_addr,
        o.text@ == spec_json_text(payload@),
{
    let text = json_text(&payload);
    Outgoing { device_addr, payload, text }
}

// ----------------------------------------------------------------------
// Status and state updates
// ----------------------------------------------------------------------

pub open spec fn spec_update_status(s: AppState, message: &'static str, success: bool) -> AppState {
    AppState { status_message: Some(StatusMessage::Text(message)), is_success_message: success, ..s }
}

pub open spec fn spec_set_sending_state(s: AppState, message: &'static str, success: bool) -> AppState {
    AppState {
        is_sending: true,
        status_message: Some(StatusMessage::Text(message)),
        is_success_message: success,
        ..s
    }
}

pub open spec fn spec_reset_transfer_state(s: AppState) -> AppState {
    AppState { is_sending: false, progress: Progress::spec_zero(), transfer: None, ..s }
}

pub open spec fn spec_finish_transfer(s: AppState, message: &'static str, success: bool) -> AppState {
    AppState {
        is_sending: false,
        progress: if success {
            Progress::spec_complete()
        } else {
            s.progress
        },
        transfer: None,
        status_message: Some(StatusMessage::Text(message)),
        is_success_message: success,
        ..s
    }
}

/// A failed step of starting a transfer: say why, and drop the transfer.
pub open spec fn spec_abort_start(s: AppState, message: &'static str) -> AppState {
    spec_reset_transfer_state(spec_update_status(s, message, false))
}

/// Status changes, resets and endings keep the state consistent.
pub proof fn lemma_status_changes_keep_wf(s: AppState, message: &'static str, success: bool)
    requires
        s.wf(),
    ensures
        spec_update_status(s, message, success).wf(),
        spec_set_sending_state(s, message, success).wf(),
        spec_reset_transfer_state(s).wf(),
        spec_finish_transfer(s, message, success).wf(),
        spec_abort_start(s, message).wf(),
{
}

/// A transfer under way in a consistent state is busy, uses the target
/// chunk size, and holds exactly the cut that `compute_chunk_offsets` makes
/// of the chosen text.
pub proof fn lemma_transfer_holds_the_cut(s: AppState, offsets: Seq<usize>)
    requires
        s.wf(),
        s.transfer is Some,
        is_chunking(encode_utf8(s.file_text->Some_0@), CHUNK_TARGET_BYTES as int, offsets),
    ensures
        s.is_sending,
        s.transfer->Some_0.chunk_size == CHUNK_TARGET_BYTES,
        s.transfer->Some_0.chunk_offsets@ == offsets,
        s.transfer->Some_0.total_chunks + 1 == offsets.len(),
        s.transfer->Some_0.total_chunks >= 1,
        s.progress.wf(),
{
    crate::chunking::lemma_chunking_unique(
        encode_utf8(s.file_text->Some_0@),
        CHUNK_TARGET_BYTES as int,
        s.transfer->Some_0.chunk_offsets@,
        offsets,
    );
}

/// Shows `message` as the status line.
pub fn update_status(state: &mut AppState, message: &'static str, success: bool)
    ensures
        old(state).wf() ==> final(state).wf(),
        *final(state) == spec_update_status(*old(state), message, success),
{
    state.status_message = Some(StatusMessage::Text(message));
    state.is_success_message = success;
}

/// Marks the sender busy and shows `message`.
pub fn set_sending_state(state: &mut AppState, message: &'static str, success: bool)
    ensures
        old(state).wf() ==> final(state).wf(),
        *final(state) == spec_set_sending_state(*old(state), message, success),
{
    state.is_sending = true;
    state.status_message = Some(StatusMessage::Text(message));
    state.is_success_message = success;
}

/// Drops the transfer and clears the progress; the status line stays.
pub fn reset_transfer_state(state: &mut AppState)
    ensures
        old(state).wf() ==> final(state).wf(),
        *final(state) == spec_reset_transfer_state(*old(state)),
{
    state.is_sending = false;
    state.progress = Progress::zero();
    state.transfer = None;
}

/// Ends the transfer with `message`; a successful end fills the progress.
pub fn finish_transfer(state: &mut AppState, message: &'static str, success: bool)
    ensures
        old(state).wf() ==> final(state).wf(),
        *final(state) == spec_finish_transfer(*old(state), message, success),
{
    state.is_sending = false;
    if success {
        state.progress = Progress::complete();
    }
    state.transfer = None;
    state.status_message = Some(StatusMessage::Text(message));
    state.is_success_message = success;
}

fn abort_start(state: &mut AppState, message: &'static str)
    ensures
        old(state).wf() ==> final(state).wf(),
        *final(state) == spec_abort_start(*old(state), message),
{
    update_status(state, message, false);
    reset_transfer_state(state);
}

// ----------------------------------------------------------------------
// Choosing a file
// ----------------------------------------------------------------------

/// Reads `data` as UTF-8 text, with `String::from_utf8`.
///
/// Trusted: std documents that `String::from_utf8` succeeds exactly on
/// valid UTF-8 and that the string then holds those bytes.
#[verifier::external_body]
fn text_from_utf8(data: Vec<u8>) -> (r: Option<String>)
    ensures
        r is Some <==> valid_utf8(data@),
        r matches Some(s) ==> encode_utf8(s@) == data@,
{
    String::from_utf8(data).ok()
}

/// Takes the file the user chose in the dialog, `name` and its bytes
/// `data`: an empty name means the dialog was cancelled.
pub fn pick_file_and_update_state(state: &mut AppState, name: String, data: Vec<u8>)
    requires
        old(state).wf(),
    ensures
        final(state).wf(),
        name@.len() == 0 ==> *final(state) == spec_update_status(*old(state), STATUS_PICK_CANCELLED, false),
        name@.len() != 0 ==> {
            &&& final(state).root_element_id == old(state).root_element_id
            &&& final(state).file_name == Some(name)
            &&& final(state).file_size == data@.len()
            &&& !final(state).is_sending
            &&& final(state).progress == Progress::spec_zero()
            &&& final(state).transfer is None
            &&& valid_utf8(data@) ==> {
                &&& final(state).file_text matches Some(t) && encode_utf8(t@) == data@
                &&& final(state).status_message == Some(StatusMessage::Text(STATUS_FILE_READY))
                &&& final(state).is_success_message
            }
            &&& !valid_utf8(data@) ==> {
                &&& final(state).file_text is None
                &&& final(state).status_message == Some(StatusMessage::Text(STATUS_NOT_UTF8))
                &&& !final(state).is_success_message
            }
        },
{
    if name.as_str().is_empty() {
        update_status(state, STATUS_PICK_CANCELLED, false);
        return;
    }
    let size = data.len();
    let text = text_from_utf8(data);
    let ok = text.is_some();
    state.file_name = Some(name);
    state.file_size = size;
    state.file_text = text;
    state.is_sending = false;
    state.progress = Progress::zero();
    state.transfer = None;
    if ok {
        state.status_message = Some(StatusMessage::Text(STATUS_FILE_READY));
        state.is_success_message = true;
    } else {
        state.status_message = Some(StatusMessage::Text(STATUS_NOT_UTF8));
        state.is_success_message = false;
    }
}

// ----------------------------------------------------------------------
// Starting a transfer
// ----------------------------------------------------------------------

/// First step of sending: a file must have been chosen. Gives back its
/// name and size, and marks the sender busy checking for a device.
pub fn start_send(state: &mut AppState) -> (r: Option<(String, usize)>)
    ensures
        old(state).wf() ==> final(state).wf(),
        match old(state).file_name {
            None => r is None && *final(state) == spec_update_status(*old(state), STATUS_NO_FILE, false),
            Some(name) => r == Some((name, old(state).file_size)) && *final(state)
                == spec_set_sending_state(*old(state), STATUS_CHECKING_DEVICE, false),
        },
{
    let picked = match &state.file_name {
        Some(name) => Some((name.clone(), state.file_size)),
        None => None,
    };
    match picked {
        None => {
            update_status(state, STATUS_NO_FILE, false);
            None
        },
        Some(p) => {
            set_sending_state(state, STATUS_CHECKING_DEVICE, false);
            Some(p)
        },
    }
}

/// Picks the first connected device, given the addresses of the devices
/// the host sees.
pub fn check_device(state: &mut AppState, device_addrs: &Vec<String>) -> (r: Option<String>)
    ensures
        old(state).wf() ==> final(state).wf(),
        device_addrs@.len() > 0 ==> r == Some(device_addrs@[0]) && *final(state) == *old(state),
        device_addrs@.len() == 0 ==> r is None && *final(state) == spec_update_status(*old(state), STATUS_NO_DEVICE, false),
{
    if device_addrs.len() > 0 {
        Some(device_addrs[0].clone())
    } else {
        update_status(state, STATUS_NO_DEVICE, false);
        None
    }
}

/// `i` is the first position of `target` in `names`.
pub open spec fn is_first_match(names: Seq<String>, i: int, target: Seq<char>) -> bool {
    &&& 0 <= i < names.len()
    &&& names[i]@ == target
    &&& forall|j: int| 0 <= j < i ==> (#[trigger] names[j])@ != target
}

/// Finds the reader app among the apps installed on the device, given
/// their package names, or `None` when the host could not list them.
/// Gives back the position of the app in the list.
pub fn check_app(state: &mut AppState, app_packages: Option<&Vec<String>>) -> (r: Option<usize>)
    ensures
        old(state).wf() ==> final(state).wf(),
        match app_packages {
            None => r is None && *final(state) == spec_update_status(*old(state), STATUS_APP_LIST_FAILED, false),
            Some(names) => match r {
                Some(i) => is_first_match(names@, i as int, PACKAGE_NAME@) && *final(state) == *old(state),
                None => (forall|j: int| 0 <= j < names@.len() ==> (#[trigger] names@[j])@ != PACKAGE_NAME@)
                    && *final(state) == spec_update_status(*old(state), STATUS_APP_MISSING, false),
            },
        },
{
    let names = match app_packages {
        None => {
            update_status(state, STATUS_APP_LIST_FAILED, false);
            return None;
        },
        Some(names) => names,
    };
    let mut i: usize = 0;
    while i < names.len()
        invariant
            app_packages == Some(names),
            *state == *old(state),
            i <= names@.len(),
            forall|j: int| 0 <= j < i ==> (#[trigger] names@[j])@ != PACKAGE_NAME@,
        decreases names@.len() - i,
    {
        if crate::json::str_eq(names[i].as_str(), PACKAGE_NAME) {
            return Some(i);
        }
        i = i + 1;
    }
    update_status(state, STATUS_APP_MISSING, false);
    None
}

/// Device step of sending: without a device the transfer is dropped.
pub fn start_send_with_devices(state: &mut AppState, device_addrs: &Vec<String>) -> (r: Option<String>)
    ensures
        old(state).wf() ==> final(state).wf(),
        device_addrs@.len() > 0 ==> r == Some(device_addrs@[0]) && *final(state) == *old(state),
        device_addrs@.len() == 0 ==> r is None && *final(state) == spec_abort_start(*old(state), STATUS_NO_DEVICE),
{
    let r = check_device(state, device_addrs);
    if r.is_none() {
        reset_transfer_state(state);
    }
    r
}

/// App step of sending: without the reader app the transfer is dropped.
pub fn start_send_with_apps(state: &mut AppState, app_packages: Option<&Vec<String>>) -> (r: Option<usize>)
    ensures
        old(state).wf() ==> final(state).wf(),
        match app_packages {
            None => r is None && *final(state) == spec_abort_start(*old(state), STATUS_APP_LIST_FAILED),
            Some(names) => match r {
                Some(i) => is_first_match(names@, i as int, PACKAGE_NAME@) && *final(state) == *old(state),
                None => (forall|j: int| 0 <= j < names@.len() ==> (#[trigger] names@[j])@ != PACKAGE_NAME@)
                    && *final(state) == spec_abort_start(*old(state), STATUS_APP_MISSING),
            },
        },
{
    let r = check_app(state, app_packages);
    if r.is_none() {
        reset_transfer_state(state);
    }
    r
}

/// Launch step of sending: if the reader app did not start, the transfer
/// is dropped. Tells whether to go on.
pub fn start_send_after_launch(state: &mut AppState, launched: bool) -> (r: bool)
    ensures
        old(state).wf() ==> final(state).wf(),
        r == launched,
        launched ==> *final(state) == *old(state),
        !launched ==> *final(state) == spec_abort_start(*old(state), STATUS_LAUNCH_FAILED),
{
    if !launched {
        abort_start(state, STATUS_LAUNCH_FAILED);
    }
    launched
}

proof fn lemma_encode_empty(s: Seq<char>)
    ensures
        encode_utf8(s).len() == 0 <==> s.len() == 0,
{
    encode_utf8_decode_utf8(s);
    if s.len() == 0 {
        assert(encode_utf8(s) =~= Seq::<u8>::empty());
    }
    if encode_utf8(s).len() == 0 {
        assert(encode_utf8(s) =~= Seq::<u8>::empty());
        assert(decode_utf8(Seq::<u8>::empty()) =~= Seq::<char>::empty());
    }
}

/// What `begin_transfer` does from `s` to `t`, sending `out`.
pub open spec fn begin_transfer_post(
    s: AppState,
    t: AppState,
    device_addr: String,
    file_name: String,
    file_size: usize,
    out: Option<(Seq<char>, JsonView)>,
) -> bool {
    match s.file_text {
        None => false,
        Some(text) => if text@.len() == 0 {
            out is None && t == spec_abort_start(s, STATUS_FILE_EMPTY)
        } else {
            &&& t.transfer matches Some(tr) && {
                &&& tr.device_addr == device_addr
                &&& tr.file_name == file_name
                &&& tr.chunk_size == CHUNK_TARGET_BYTES
                &&& is_chunking(encode_utf8(text@), CHUNK_TARGET_BYTES as int, tr.chunk_offsets@)
                &&& tr.total_chunks + 1 == tr.chunk_offsets@.len()
                &&& tr.last_chunk_time is None
                &&& out == Some(
                    (device_addr@, spec_start_payload(file_name@, tr.total_chunks, CHUNK_TARGET_BYTES, file_size)),
                )
            }
            &&& t == (AppState {
                transfer: t.transfer,
                is_sending: true,
                progress: Progress::spec_zero(),
                status_message: Some(StatusMessage::Text(STATUS_WAITING_DEVICE)),
                is_success_message: false,
                ..s
            })
        },
    }
}

/// Last step of starting: cut the chosen text into chunks, record the
/// transfer to `device_addr`, and give back the message that announces it
/// to the device. An empty file ends the attempt instead. A file must have
/// been read as text.
pub fn begin_transfer(state: &mut AppState, device_addr: String, file_name: String, file_size: usize) -> (r: Option<Outgoing>)
    requires
        old(state).wf(),
        old(state).file_text is Some,
    ensures
        final(state).wf(),
        sent_as_json(r),
        begin_transfer_post(*old(state), *final(state), device_addr, file_name, file_size, opt_view(r)),
{
    let ghost text = old(state).file_text->Some_0;
    let offsets = compute_chunk_offsets(state.file_text.as_ref().unwrap().as_str(), CHUNK_TARGET_BYTES);
    proof {
        assert(is_chunking(encode_utf8(text@), CHUNK_TARGET_BYTES as int, offsets@));
        lemma_single_offset_iff_empty(encode_utf8(text@), CHUNK_TARGET_BYTES as int, offsets@);
        lemma_encode_empty(text@);
    }
    if offsets.len() < 2 {
        abort_start(state, STATUS_FILE_EMPTY);
        return None;
    }
    let total_chunks = offsets.len() - 1;
    let payload = start_payload(file_name.as_str(), total_chunks, CHUNK_TARGET_BYTES, file_size);
    state.transfer = Some(
        TransferState {
            device_addr: device_addr.clone(),
            file_name,
            total_chunks,
            chunk_size: CHUNK_TARGET_BYTES,
            chunk_offsets: offsets,
            last_chunk_time: None,
        },
    );
    state.is_sending = true;
    state.progress = Progress::zero();
    state.status_message = Some(StatusMessage::Text(STATUS_WAITING_DEVICE));
    state.is_success_message = false;
    Some(outgoing(device_addr, payload))
}

/// After the announcing message went out, or failed to: a failure drops
/// the transfer.
pub fn start_send_after_payload(state: &mut AppState, sent: bool)
    ensures
        old(state).wf() ==> final(state).wf(),
        sent ==> *final(state) == *old(state),
        !sent ==> *final(state) == spec_abort_start(*old(state), STATUS_SEND_FAILED),
{
    if !sent {
        abort_start(state, STATUS_SEND_FAILED);
    }
}

/// How long the sender waits after asking for the device's messages,
/// before it announces the file.
pub const REGISTER_WAIT_MILLIS: u64 = 800;

/// Where the sender stands in starting a transfer.
#[derive(Debug)]
pub enum StartStage {
    /// Not starting one.
    Idle,
    /// The file is chosen; looking for a device.
    FindDevice { file_name: String, file_size: usize },
    /// A device is found; looking for the reader app on it.
    FindApp { file_name: String, file_size: usize, device_addr: String },
    /// The reader app is being launched.
    Launch { file_name: String, file_size: usize, device_addr: String },
    /// The sender asks for the device's messages and waits.
    Register { file_name: String, file_size: usize, device_addr: String },
    /// The announcing message is on its way.
    Announce,
}

/// What the host reports back to the starting sender.
#[derive(Debug)]
pub enum StartEvent {
    /// The user asked to send.
    Begin,
    /// The addresses of the connected devices.
    Devices(Vec<String>),
    /// The package names of the apps on the device; `None` when the host
    /// could not list them.
    Apps(Option<Vec<String>>),
    /// Whether the reader app started.
    Launched(bool),
    /// The sender asked for the device's messages and waited.
    Registered,
    /// Whether the announcing message went out.
    Sent(bool),
}

/// What the starting sender asks the host to do next.
#[derive(Debug)]
pub enum StartAction {
    /// Nothing: starting is over, one way or the other.
    Stop,
    /// List the connected devices.
    ListDevices,
    /// List the apps on the device.
    ListApps { device_addr: String },
    /// Launch the app found at `app_index` of the list.
    Launch { device_addr: String, app_index: usize },
    /// Ask for the device's messages, then wait `REGISTER_WAIT_MILLIS`.
    Register { device_addr: String },
    /// Send the announcing message.
    Send(Outgoing),
}

/// Starting is over: back to idle, nothing more to do.
pub open spec fn stops(r: (StartStage, StartAction)) -> bool {
    r.0 is Idle && r.1 is Stop
}

/// One step of starting a transfer: from the stage and what the host
/// reported, the next stage and what the host must do. Each step takes the
/// decision of the matching step function above; a report that does not
/// fit the stage stops, changing nothing.
pub fn start_send_step(state: &mut AppState, stage: StartStage, event: StartEvent) -> (r: (StartStage, StartAction))
    requires
        old(state).wf(),
        stage is Register && event is Registered ==> old(state).file_text is Some,
    ensures
        final(state).wf(),
        r.1 matches StartAction::Send(o) ==> o.text@ == spec_json_text(o.payload@),
        match (stage, event) {
            (StartStage::Idle, StartEvent::Begin) => match old(state).file_name {
                None => stops(r) && *final(state) == spec_update_status(*old(state), STATUS_NO_FILE, false),
                Some(name) => {
                    &&& r.0 == (StartStage::FindDevice { file_name: name, file_size: old(state).file_size })
                    &&& r.1 is ListDevices
                    &&& *final(state) == spec_set_sending_state(*old(state), STATUS_CHECKING_DEVICE, false)
                },
            },
            (StartStage::FindDevice { file_name, file_size }, StartEvent::Devices(addrs)) => if addrs@.len() > 0 {
                &&& r.0 == (StartStage::FindApp { file_name, file_size, device_addr: addrs@[0] })
                &&& r.1 == (StartAction::ListApps { device_addr: addrs@[0] })
                &&& *final(state) == *old(state)
            } else {
                stops(r) && *final(state) == spec_abort_start(*old(state), STATUS_NO_DEVICE)
            },
            (StartStage::FindApp { file_name, file_size, device_addr }, StartEvent::Apps(packages)) => match packages {
                None => stops(r) && *final(state) == spec_abort_start(*old(state), STATUS_APP_LIST_FAILED),
                Some(names) => match r.1 {
                    StartAction::Launch { device_addr: d, app_index } => {
                        &&& is_first_match(names@, app_index as int, PACKAGE_NAME@)
                        &&& d == device_addr
                        &&& r.0 == (StartStage::Launch { file_name, file_size, device_addr })
                        &&& *final(state) == *old(state)
                    },
                    _ => {
                        &&& stops(r)
                        &&& forall|j: int| 0 <= j < names@.len() ==> (#[trigger] names@[j])@ != PACKAGE_NAME@
                        &&& *final(state) == spec_abort_start(*old(state), STATUS_APP_MISSING)
                    },
                },
            },
            (StartStage::Launch { file_name, file_size, device_addr }, StartEvent::Launched(ok)) => if ok {
                &&& r.0 == (StartStage::Register { file_name, file_size, device_addr })
                &&& r.1 == (StartAction::Register { device_addr })
                &&& *final(state) == *old(state)
            } else {
                stops(r) && *final(state) == spec_abort_start(*old(state), STATUS_LAUNCH_FAILED)
            },
            (StartStage::Register { file_name, file_size, device_addr }, StartEvent::Registered) => {
                &&& begin_transfer_post(
                    *old(state),
                    *final(state),
                    device_addr,
                    file_name,
                    file_size,
                    match r.1 {
                        StartAction::Send(o) => Some(o@),
                        _ => None,
                    },
                )
                &&& (r.1 is Send ==> r.0 is Announce)
                &&& (!(r.1 is Send) ==> stops(r))
            },
            (StartStage::Announce, StartEvent::Sent(ok)) => {
                &&& stops(r)
                &&& ok ==> *final(state) == *old(state)
                &&& !ok ==> *final(state) == spec_abort_start(*old(state), STATUS_SEND_FAILED)
            },
            _ => stops(r) && *final(state) == *old(state),
        },
{
    match (stage, event) {
        (StartStage::Idle, StartEvent::Begin) => match start_send(state) {
            None => (StartStage::Idle, StartAction::Stop),
            Some((file_name, file_size)) => (StartStage::FindDevice { file_name, file_size }, StartAction::ListDevices),
        },
        (StartStage::FindDevice { file_name, file_size }, StartEvent::Devices(addrs)) => {
            match start_send_with_devices(state, &addrs) {
                None => (StartStage::Idle, StartAction::Stop),
                Some(device_addr) => {
                    let action = StartAction::ListApps { device_addr: device_addr.clone() };
                    (StartStage::FindApp { file_name, file_size, device_addr }, action)
                },
            }
        },
        (StartStage::FindApp { file_name, file_size, device_addr }, StartEvent::Apps(packages)) => {
            match start_send_with_apps(state, packages.as_ref()) {
                None => (StartStage::Idle, StartAction::Stop),
                Some(app_index) => {
                    let action = StartAction::Launch { device_addr: device_addr.clone(), app_index };
                    (StartStage::Launch { file_name, file_size, device_addr }, action)
                },
            }
        },
        (StartStage::Launch { file_name, file_size, device_addr }, StartEvent::Launched(ok)) => {
            if start_send_after_launch(state, ok) {
                let action = StartAction::Register { device_addr: device_addr.clone() };
                (StartStage::Register { file_name, file_size, device_addr }, action)
            } else {
                (StartStage::Idle, StartAction::Stop)
            }
        },
        (StartStage::Register { file_name, file_size, device_addr }, StartEvent::Registered) => {
            match begin_transfer(state, device_addr, file_name, file_size) {
                None => (StartStage::Idle, StartAction::Stop),
                Some(o) => (StartStage::Announce, StartAction::Send(o)),
            }
        },
        (StartStage::Announce, StartEvent::Sent(ok)) => {
            start_send_after_payload(state, ok);
            (StartStage::Idle, StartAction::Stop)
        },
        _ => (StartStage::Idle, StartAction::Stop),
    }
}

// ----------------------------------------------------------------------
// Cancelling
// ----------------------------------------------------------------------

/// The user cancels: with a transfer under way, gives back the message that
/// tells its device to stop; without one, says there is nothing to cancel.
pub fn cancel_send(state: &mut AppState) -> (r: Option<Outgoing>)
    ensures
        old(state).wf() ==> final(state).wf(),
        sent_as_json(r),
        match old(state).transfer {
            None => r is None && *final(state) == (AppState {
                is_sending: false,
                progress: Progress::spec_zero(),
                status_message: Some(StatusMessage::Text(STATUS_NOT_SENDING)),
                is_success_message: false,
                ..*old(state)
            }),
            Some(t) => opt_view(r) == Some((t.device_addr@, spec_cancel_payload())) && *final(state)
                == *old(state),
        },
{
    let device_addr = match &state.transfer {
        Some(t) => t.device_addr.clone(),
        None => {
            state.is_sending = false;
            state.progress = Progress::zero();
            state.status_message = Some(StatusMessage::Text(STATUS_NOT_SENDING));
            state.is_success_message = false;
            return None;
        },
    };
    Some(outgoing(device_addr, cancel_payload()))
}

/// Once the stop message has gone (whether or not it arrived), the
/// transfer is over.
pub fn cancel_send_complete(state: &mut AppState)
    ensures
        old(state).wf() ==> final(state).wf(),
        *final(state) == (AppState {
            is_sending: false,
            progress: Progress::spec_zero(),
            transfer: None,
            status_message: Some(StatusMessage::Text(STATUS_SEND_CANCELLED)),
            is_success_message: false,
            ..*old(state)
        }),
{
    state.is_sending = false;
    state.progress = Progress::zero();
    state.transfer = None;
    state.status_message = Some(StatusMessage::Text(STATUS_SEND_CANCELLED));
    state.is_success_message = false;
}

// ----------------------------------------------------------------------
// Sending chunks
// ----------------------------------------------------------------------

/// Chunk `current` of the transfer under way can be sent.
pub open spec fn chunk_applies(s: AppState, current: usize) -> bool {
    &&& s.transfer is Some
    &&& s.file_text is Some
    &&& current < s.transfer->Some_0.total_chunks
}

/// The text of chunk `current`.
pub open spec fn spec_chunk_text(s: AppState, current: usize) -> Seq<char> {
    decode_utf8(
        chunk_bytes(encode_utf8(s.file_text->Some_0@), s.transfer->Some_0.chunk_offsets@, current as int),
    )
}

/// The speed note after a chunk of `chunk_bytes` bytes sent at `now`,
/// the previous one having gone at `last`.
pub open spec fn spec_speed(last: Option<u64>, now: u64, chunk_bytes: usize, remaining: usize) -> Option<SpeedNote> {
    match last {
        Some(l) => if now > l {
            Some(SpeedNote { chunk_bytes, elapsed_nanos: (now - l) as u64, remaining_chunks: remaining })
        } else {
            None
        },
        None => None,
    }
}

/// The state after chunk `current` went out at `now`.
pub open spec fn spec_send_chunk_state(s: AppState, current: usize, now: u64) -> AppState {
    if !chunk_applies(s, current) {
        s
    } else {
        let t = s.transfer->Some_0;
        let p = Progress { done: current, total: t.total_chunks };
        let len = (t.chunk_offsets@[current + 1] - t.chunk_offsets@[current as int]) as usize;
        AppState {
            progress: p,
            is_success_message: false,
            status_message: Some(
                StatusMessage::Transferring {
                    progress: p,
                    speed: spec_speed(t.last_chunk_time, now, len, (t.total_chunks - current) as usize),
                },
            ),
            transfer: Some(TransferState { last_chunk_time: Some(now), ..t }),
            ..s
        }
    }
}

/// The message that carries chunk `current`, and the device it goes to.
pub open spec fn spec_send_chunk_out(s: AppState, current: usize, is_resend: bool) -> Option<(Seq<char>, JsonView)> {
    if !chunk_applies(s, current) {
        None
    } else {
        Some(
            (
                s.transfer->Some_0.device_addr@,
                spec_chunk_payload(current, spec_chunk_text(s, current), is_resend),
            ),
        )
    }
}

/// Sends chunk `current_chunk` at time `now` (nanoseconds of the host's
/// monotonic clock): records the progress and speed, and gives back the
/// message that carries the chunk. Nothing happens for a chunk the
/// transfer does not have.
pub fn send_chunk(state: &mut AppState, current_chunk: usize, is_resend: bool, now: u64) -> (r: Option<Outgoing>)
    requires
        old(state).wf(),
    ensures
        sent_as_json(r),
        final(state).wf(),
        *final(state) == spec_send_chunk_state(*old(state), current_chunk, now),
        opt_view(r) == spec_send_chunk_out(*old(state), current_chunk, is_resend),
{
    let ghost s0 = *state;
    let (device_addr, total_chunks, payload, last_chunk_time, chunk_len) = {
        let t = match &state.transfer {
            Some(t) => t,
            None => return None,
        };
        let text = match &state.file_text {
            Some(x) => x,
            None => return None,
        };
        if current_chunk >= t.total_chunks {
            return None;
        }
        let start = t.chunk_offsets[current_chunk];
        let end = t.chunk_offsets[current_chunk + 1];
        let ghost bytes = encode_utf8(text@);
        proof {
            assert(t.chunk_offsets@[current_chunk as int] < t.chunk_offsets@[current_chunk + 1]);
            assert(is_char_boundary(bytes, t.chunk_offsets@[current_chunk as int] as int));
            assert(is_char_boundary(bytes, t.chunk_offsets@[current_chunk + 1] as int));
            crate::chunking::lemma_offsets_bounded(bytes, t.chunk_size as int, t.chunk_offsets@, current_chunk + 1);
        }
        let piece = text_between(text.as_str(), start, end);
        proof {
            encode_utf8_decode_utf8(piece@);
        }
        let payload = chunk_payload(current_chunk, piece, is_resend);
        (t.device_addr.clone(), t.total_chunks, payload, t.last_chunk_time, end - start)
    };
    let speed = match last_chunk_time {
        Some(last) => if now > last {
            Some(
                SpeedNote {
                    chunk_bytes: chunk_len,
                    elapsed_nanos: now - last,
                    remaining_chunks: total_chunks - current_chunk,
                },
            )
        } else {
            None
        },
        None => None,
    };
    let progress = Progress { done: current_chunk, total: total_chunks };
    state.progress = progress;
    state.is_success_message = false;
    state.status_message = Some(StatusMessage::Transferring { progress, speed });
    match state.transfer.take() {
        Some(mut t) => {
            t.last_chunk_time = Some(now);
            state.transfer = Some(t);
        },
        None => {},
    }
    Some(outgoing(device_addr, payload))
}

/// The texts of the first `m` chunks laid end to end.
pub open spec fn sent_text(s: AppState, m: int) -> Seq<char>
    decreases m,
{
    if m <= 0 {
        Seq::empty()
    } else {
        sent_text(s, m - 1) + spec_chunk_text(s, (m - 1) as usize)
    }
}

proof fn lemma_sent_text_prefix(s: AppState, m: int)
    requires
        s.wf(),
        s.transfer is Some,
        0 <= m <= s.transfer->Some_0.total_chunks,
    ensures
        sent_text(s, m) == decode_utf8(
            encode_utf8(s.file_text->Some_0@).subrange(0, s.transfer->Some_0.chunk_offsets@[m] as int),
        ),
    decreases m,
{
    let t = s.transfer->Some_0;
    let bytes = encode_utf8(s.file_text->Some_0@);
    let o = t.chunk_offsets@;
    encode_utf8_valid_utf8(s.file_text->Some_0@);
    crate::chunking::lemma_offsets_bounded(bytes, t.chunk_size as int, o, m);
    if m == 0 {
        assert(bytes.subrange(0, 0) =~= Seq::<u8>::empty());
        assert(decode_utf8(Seq::<u8>::empty()) =~= Seq::<char>::empty());
    } else {
        lemma_sent_text_prefix(s, m - 1);
        let a = o[m - 1] as int;
        let b = o[m] as int;
        assert(a < b);
        let prefix = bytes.subrange(0, b);
        assert(is_char_boundary(bytes, o[m] as int));
        assert(is_char_boundary(bytes, o[m - 1] as int));
        valid_utf8_split(bytes, b);
        crate::chunking::lemma_boundary_in_prefix(bytes, b, a);
        decode_utf8_split(prefix, a);
        assert(prefix.subrange(0, a) =~= bytes.subrange(0, a));
        assert(prefix.subrange(a, prefix.len() as int) =~= chunk_bytes(bytes, o, m - 1));
    }
}

/// The chunks of a transfer, sent one after the other, deliver the whole
/// text of the chosen file.
pub proof fn lemma_chunks_deliver_file(s: AppState)
    requires
        s.wf(),
        s.transfer is Some,
    ensures
        sent_text(s, s.transfer->Some_0.total_chunks as int) == s.file_text->Some_0@,
{
    let t = s.transfer->Some_0;
    let text = s.file_text->Some_0@;
    let bytes = encode_utf8(text);
    lemma_sent_text_prefix(s, t.total_chunks as int);
    assert(bytes.subrange(0, bytes.len() as int) =~= bytes);
    encode_utf8_decode_utf8(text);
}

/// Without a transfer under way, no message from the device makes the
/// sender send anything, and none starts a transfer.
pub proof fn lemma_idle_sender_stays_quiet(s: AppState, msg: DeviceMessage, now: u64)
    requires
        s.transfer is None,
    ensures
        spec_handle_message_out(s, msg) is None,
        spec_handle_message_state(s, msg, now).transfer is None,
{
}

/// Where to resume: at the chunk holding byte `length` when the device
/// already holds part of the file, else at the start; a point past the
/// last chunk starts over.
pub open spec fn spec_resume_chunk(found: bool, length: u64, total: usize) -> usize {
    let at = if found && length > 0 {
        ((length as usize) / CHUNK_TARGET_BYTES) as usize
    } else {
        0usize
    };
    if total > 0 && at >= total {
        0
    } else {
        at
    }
}

/// The number of chunks of the transfer under way, 0 without one.
pub open spec fn total_chunks_of(s: AppState) -> usize {
    match s.transfer {
        Some(t) => t.total_chunks,
        None => 0,
    }
}

pub open spec fn spec_handle_ready_state(s: AppState, found: bool, usage: u64, length: u64, now: u64) -> AppState {
    if usage > DEVICE_USAGE_LIMIT_BYTES {
        spec_finish_transfer(s, STATUS_STORAGE_FULL, false)
    } else {
        spec_send_chunk_state(s, spec_resume_chunk(found, length, total_chunks_of(s)), now)
    }
}

pub open spec fn spec_handle_ready_out(s: AppState, found: bool, usage: u64, length: u64) -> Option<(Seq<char>, JsonView)> {
    if usage > DEVICE_USAGE_LIMIT_BYTES {
        None
    } else {
        spec_send_chunk_out(s, spec_resume_chunk(found, length, total_chunks_of(s)), found)
    }
}

/// The device is ready: a full device ends the transfer; otherwise the
/// sender resumes where the device's copy ends (`found`, `length`) and
/// sends that chunk, marked as a resend when the device had a copy.
pub fn handle_ready(state: &mut AppState, found: bool, usage: u64, length: u64, now: u64) -> (r: Option<Outgoing>)
    requires
        old(state).wf(),
    ensures
        sent_as_json(r),
        final(state).wf(),
        *final(state) == spec_handle_ready_state(*old(state), found, usage, length, now),
        opt_view(r) == spec_handle_ready_out(*old(state), found, usage, length),
{
    if usage > DEVICE_USAGE_LIMIT_BYTES {
        finish_transfer(state, STATUS_STORAGE_FULL, false);
        return None;
    }
    let mut current_chunk: usize = if found && length > 0 {
        u64_to_usize(length) / CHUNK_TARGET_BYTES
    } else {
        0
    };
    let total_chunks: usize = match &state.transfer {
        Some(t) => t.total_chunks,
        None => 0,
    };
    if total_chunks > 0 && current_chunk >= total_chunks {
        current_chunk = 0;
    }
    assert(current_chunk == spec_resume_chunk(found, length, total_chunks_of(*old(state))));
    send_chunk(state, current_chunk, found, now)
}

/// Ends the transfer after a chunk could not be sent.
pub fn chunk_send_failed(state: &mut AppState)
    ensures
        old(state).wf() ==> final(state).wf(),
        *final(state) == spec_abort_start(*old(state), STATUS_CHUNK_FAILED),
{
    abort_start(state, STATUS_CHUNK_FAILED);
}

/// When the device already holds `length > 0` bytes of the file and has
/// room, the transfer resumes at the chunk that holds byte `length`, chunk
/// `length / CHUNK_TARGET_BYTES`, sent as a resend, whenever the transfer
/// has that chunk.
pub proof fn lemma_ready_resumes_at_device_length(s: AppState, usage: u64, length: u64, now: u64)
    requires
        s.wf(),
        s.transfer is Some,
        usage <= DEVICE_USAGE_LIMIT_BYTES,
        0 < length <= usize::MAX,
        (length as int) / (CHUNK_TARGET_BYTES as int) < s.transfer->Some_0.total_chunks,
    ensures
        ({
            let t = s.transfer->Some_0;
            let k = ((length as int) / (CHUNK_TARGET_BYTES as int)) as usize;
            &&& spec_handle_ready_out(s, true, usage, length) == Some(
                (t.device_addr@, spec_chunk_payload(k, spec_chunk_text(s, k), true)),
            )
            &&& spec_handle_ready_state(s, true, usage, length, now).progress == (Progress {
                done: k,
                total: t.total_chunks,
            })
        }),
{
}

/// When the device's copy ends exactly where chunk `k - 1` ends (a cut at
/// a whole number of target-size chunks), the device is sent chunk `k`:
/// the first chunk it does not hold.
pub proof fn lemma_ready_sends_first_missing_chunk(s: AppState, usage: u64, k: usize, now: u64)
    requires
        s.wf(),
        s.transfer is Some,
        usage <= DEVICE_USAGE_LIMIT_BYTES,
        0 < k < s.transfer->Some_0.total_chunks,
        s.transfer->Some_0.chunk_offsets@[k as int] == k * CHUNK_TARGET_BYTES,
    ensures
        ({
            let t = s.transfer->Some_0;
            let length = t.chunk_offsets@[k as int] as u64;
            &&& spec_handle_ready_out(s, true, usage, length) == Some(
                (t.device_addr@, spec_chunk_payload(k, spec_chunk_text(s, k), true)),
            )
            &&& spec_handle_ready_state(s, true, usage, length, now).progress == (Progress {
                done: k,
                total: t.total_chunks,
            })
        }),
{
    let length = s.transfer->Some_0.chunk_offsets@[k as int] as u64;
    assert((k * CHUNK_TARGET_BYTES) as int / (CHUNK_TARGET_BYTES as int) == k) by (nonlinear_arith);
    lemma_ready_resumes_at_device_length(s, usage, length, now);
}

/// When the device has room but holds no part of the file (not `found`,
/// or `length` 0), or its copy reaches past the last chunk, the transfer
/// starts over at chunk 0; it is marked as a resend exactly when the
/// device reported a copy.
pub proof fn lemma_ready_starts_over(s: AppState, found: bool, usage: u64, length: u64, now: u64)
    requires
        s.wf(),
        s.transfer is Some,
        usage <= DEVICE_USAGE_LIMIT_BYTES,
        length <= usize::MAX,
        !found || length == 0 || (length as int) / (CHUNK_TARGET_BYTES as int)
            >= s.transfer->Some_0.total_chunks,
    ensures
        ({
            let t = s.transfer->Some_0;
            &&& spec_handle_ready_out(s, found, usage, length) == Some(
                (t.device_addr@, spec_chunk_payload(0, spec_chunk_text(s, 0), found)),
            )
            &&& spec_handle_ready_state(s, found, usage, length, now).progress == (Progress {
                done: 0,
                total: t.total_chunks,
            })
        }),
{
}

/// The device asks for chunk `count`: a `next` request sends it as a
/// first send, an `error` request sends it again marked as a resend, with
/// the progress at that chunk either way.
pub proof fn lemma_requests_send_asked_chunk(s: AppState, count: usize, now: u64)
    requires
        s.wf(),
        s.transfer is Some,
        count < s.transfer->Some_0.total_chunks,
    ensures
        ({
            let t = s.transfer->Some_0;
            let p = Progress { done: count, total: t.total_chunks };
            &&& spec_handle_message_out(s, DeviceMessage::Next { count }) == Some(
                (t.device_addr@, spec_chunk_payload(count, spec_chunk_text(s, count), false)),
            )
            &&& spec_handle_message_out(s, DeviceMessage::Error { count }) == Some(
                (t.device_addr@, spec_chunk_payload(count, spec_chunk_text(s, count), true)),
            )
            &&& spec_handle_message_state(s, DeviceMessage::Next { count }, now).progress == p
            &&& spec_handle_message_state(s, DeviceMessage::Error { count }, now).progress == p
        }),
{
}

/// An end of a transfer that is not a success leaves the progress where
/// it was; only a successful end changes it, to complete. This holds of
/// the device's cancel, of a full device, and of success.
pub proof fn lemma_only_success_fills_progress(
    s: AppState,
    message: &'static str,
    found: bool,
    usage: u64,
    length: u64,
    now: u64,
)
    ensures
        spec_finish_transfer(s, message, false).progress == s.progress,
        spec_finish_transfer(s, message, true).progress == (Progress { done: 1, total: 1 }),
        spec_handle_message_state(s, DeviceMessage::Cancel, now).progress == s.progress,
        spec_handle_message_state(s, DeviceMessage::Success, now).progress == (Progress {
            done: 1,
            total: 1,
        }),
        usage > DEVICE_USAGE_LIMIT_BYTES ==> spec_handle_ready_state(s, found, usage, length, now).progress
            == s.progress,
{
}

/// After a chunk goes out at `now`, the transfer's last chunk time is
/// `now`; so the speed note of the next chunk, sent at a later `later`,
/// counts the time since this chunk alone.
pub proof fn lemma_speed_counts_from_previous_chunk(
    s: AppState,
    first: usize,
    now: u64,
    second: usize,
    later: u64,
)
    requires
        s.wf(),
        chunk_applies(s, first),
        chunk_applies(s, second),
        now < later,
    ensures
        spec_send_chunk_state(s, first, now).transfer->Some_0.last_chunk_time == Some(now),
        ({
            let t = s.transfer->Some_0;
            let after = spec_send_chunk_state(spec_send_chunk_state(s, first, now), second, later);
            let p = Progress { done: second, total: t.total_chunks };
            &&& after.transfer->Some_0.last_chunk_time == Some(later)
            &&& after.progress == p
            &&& after.status_message == Some(
                StatusMessage::Transferring {
                    progress: p,
                    speed: Some(
                        SpeedNote {
                            chunk_bytes: (t.chunk_offsets@[second + 1] - t.chunk_offsets@[second as int]) as usize,
                            elapsed_nanos: (later - now) as u64,
                            remaining_chunks: (t.total_chunks - second) as usize,
                        },
                    ),
                },
            )
        }),
{
}

// ----------------------------------------------------------------------
// Messages from the device
// ----------------------------------------------------------------------

pub open spec fn spec_handle_message_state(s: AppState, msg: DeviceMessage, now: u64) -> AppState {
    match msg {
        DeviceMessage::Ready { found, usage, length } => spec_handle_ready_state(s, found, usage, length, now),
        DeviceMessage::Next { count } => spec_send_chunk_state(s, count, now),
        DeviceMessage::Error { count } => spec_send_chunk_state(
            spec_update_status(s, STATUS_RETRYING, false),
            count,
            now,
        ),
        DeviceMessage::Success => spec_finish_transfer(s, STATUS_SUCCESS, true),
        DeviceMessage::Cancel => spec_finish_transfer(s, STATUS_TRANSFER_CANCELLED, false),
        DeviceMessage::Ignored => s,
    }
}

pub open spec fn spec_handle_message_out(s: AppState, msg: DeviceMessage) -> Option<(Seq<char>, JsonView)> {
    match msg {
        DeviceMessage::Ready { found, usage, length } => spec_handle_ready_out(s, found, usage, length),
        DeviceMessage::Next { count } => spec_send_chunk_out(s, count, false),
        DeviceMessage::Error { count } => spec_send_chunk_out(s, count, true),
        _ => None,
    }
}

/// Acts on a message from the device at time `now`.
pub fn handle_device_message(state: &mut AppState, msg: DeviceMessage, now: u64) -> (r: Option<Outgoing>)
    requires
        old(state).wf(),
    ensures
        sent_as_json(r),
        final(state).wf(),
        *final(state) == spec_handle_message_state(*old(state), msg, now),
        opt_view(r) == spec_handle_message_out(*old(state), msg),
{
    match msg {
        DeviceMessage::Ready { found, usage, length } => handle_ready(state, found, usage, length, now),
        DeviceMessage::Next { count } => send_chunk(state, count, false, now),
        DeviceMessage::Error { count } => {
            update_status(state, STATUS_RETRYING, false);
            send_chunk(state, count, true, now)
        },
        DeviceMessage::Success => {
            finish_transfer(state, STATUS_SUCCESS, true);
            None
        },
        DeviceMessage::Cancel => {
            finish_transfer(state, STATUS_TRANSFER_CANCELLED, false);
            None
        },
        DeviceMessage::Ignored => None,
    }
}

/// The message a device payload asks for: `parsed` is the payload read as
/// JSON (`None` when it is not JSON), and `inner` the text of its
/// `payloadText` member read as JSON, when there is one.
pub open spec fn spec_interconnect_message(parsed: Option<JsonView>, inner: Option<JsonView>) -> DeviceMessage {
    match parsed {
        None => DeviceMessage::Ignored,
        Some(p) => spec_classify(spec_message_value(p, inner)),
    }
}

/// The screen changes: every path the sender takes on `msg` except the
/// silent ones (an ignored message, a chunk the transfer does not have).
pub open spec fn spec_redraws(s: AppState, msg: DeviceMessage) -> bool {
    match msg {
        DeviceMessage::Ready { usage, .. } => usage > DEVICE_USAGE_LIMIT_BYTES || spec_handle_message_out(s, msg) is Some,
        DeviceMessage::Next { .. } => spec_handle_message_out(s, msg) is Some,
        DeviceMessage::Ignored => false,
        _ => true,
    }
}

/// What the sender does about a device message: whether the screen must be
/// redrawn, and the message to send back, if any.
#[derive(Debug)]
pub struct Reaction {
    pub redraw: bool,
    pub reply: Option<Outgoing>,
}

/// Acts on a device payload already read as JSON: `parsed` is the payload
/// (`None` when it is no JSON), and `inner` is the text of its
/// `payloadText` member read as JSON (`None` when there is no such member,
/// or its text is no JSON).
pub fn handle_parsed_message(state: &mut AppState, parsed: Option<Json>, inner: Option<Json>, now: u64) -> (r: Reaction)
    requires
        old(state).wf(),
    ensures
        final(state).wf(),
        ({
            let msg = spec_interconnect_message(opt_json_view(parsed), opt_json_view(inner));
            &&& *final(state) == spec_handle_message_state(*old(state), msg, now)
            &&& opt_view(r.reply) == spec_handle_message_out(*old(state), msg)
            &&& r.redraw == spec_redraws(*old(state), msg)
        }),
        sent_as_json(r.reply),
{
    let parsed = match parsed {
        Some(p) => p,
        None => return Reaction { redraw: false, reply: None },
    };
    let wrapped = payload_text(&parsed).is_some();
    let value = if wrapped {
        match inner {
            Some(v) => v,
            None => parsed,
        }
    } else {
        parsed
    };
    let msg = classify_message(&value);
    let reply = handle_device_message(state, msg, now);
    let redraw = match msg {
        DeviceMessage::Ready { usage, .. } => usage > DEVICE_USAGE_LIMIT_BYTES || reply.is_some(),
        DeviceMessage::Next { .. } => reply.is_some(),
        DeviceMessage::Ignored => false,
        _ => true,
    };
    Reaction { redraw, reply }
}

/// The `payloadText` member of `parsed`, read as JSON, when it is a string.
pub open spec fn spec_inner(parsed: Option<JsonView>) -> Option<JsonView> {
    match parsed {
        Some(p) => match spec_payload_text(p) {
            Some(t) => spec_parse_json(t),
            None => None,
        },
        None => None,
    }
}

/// The message a raw payload from the device asks for.
pub open spec fn spec_payload_message(payload: Seq<char>) -> DeviceMessage {
    spec_interconnect_message(spec_parse_json(payload), spec_inner(spec_parse_json(payload)))
}

/// Acts on a raw payload from the device at time `now`: reads it as JSON,
/// unwraps a message carried in its `payloadText`, and acts on what it asks.
pub fn handle_interconnect_message(state: &mut AppState, payload: &str, now: u64) -> (r: Reaction)
    requires
        old(state).wf(),
    ensures
        final(state).wf(),
        *final(state) == spec_handle_message_state(*old(state), spec_payload_message(payload@), now),
        opt_view(r.reply) == spec_handle_message_out(*old(state), spec_payload_message(payload@)),
        r.redraw == spec_redraws(*old(state), spec_payload_message(payload@)),
        sent_as_json(r.reply),
{
    let parsed = parse_json(payload);
    let inner = match &parsed {
        Some(p) => match payload_text(p) {
            Some(t) => parse_json(t.as_str()),
            None => None,
        },
        None => None,
    };
    handle_parsed_message(state, parsed, inner, now)
}

} // verus!
