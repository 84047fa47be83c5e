use ebook_transfer::state::{AppState, Progress, StatusMessage};
use ebook_transfer::transfer::{
    begin_transfer, pick_file_and_update_state, send_chunk, STATUS_FILE_READY,
};
use ebook_transfer::ui::{
    main_element, Attr, ElementKind, ScreenFigures, build_main_ui, render_main_ui, rerender, snapshot_state, ui_event_processor, FileLabel,
    UiAction, UiEventKind, CANCEL_SEND_EVENT, COLOR_BUSY, COLOR_FAILURE, COLOR_SUCCESS,
    LABEL_CANCEL, LABEL_SEND, PICK_FILE_EVENT, SEND_FILE_EVENT, STATUS_IDLE,
};

#[test]
fn clicks_on_the_buttons_map_to_actions() {
    assert_eq!(ui_event_processor(UiEventKind::Click, "pick_file"), UiAction::PickFile);
    assert_eq!(ui_event_processor(UiEventKind::Click, "send_file"), UiAction::SendFile);
    assert_eq!(ui_event_processor(UiEventKind::Click, "cancel_send"), UiAction::CancelSend);
    assert_eq!(ui_event_processor(UiEventKind::Click, "other"), UiAction::Nothing);
    assert_eq!(ui_event_processor(UiEventKind::Other, "pick_file"), UiAction::Nothing);
}

#[test]
fn no_redraw_before_the_first_render() {
    let st = AppState::default();
    assert!(rerender(&st).is_none());
}

#[test]
fn render_sets_the_root_for_later_redraws() {
    let mut st = AppState::default();
    let snap = render_main_ui(&mut st, "root-1");
    assert_eq!(st.root_element_id.as_deref(), Some("root-1"));
    assert_eq!(snap.root_element_id.as_deref(), Some("root-1"));
    let (id, snap) = rerender(&st).unwrap();
    assert_eq!(id, "root-1");
    assert!(!snap.has_file);
}

#[test]
fn snapshot_copies_the_state() {
    let mut st = AppState::default();
    pick_file_and_update_state(&mut st, "a.txt".to_string(), b"hello".to_vec());
    let snap = snapshot_state(&st);
    assert_eq!(snap.file_name.as_deref(), Some("a.txt"));
    assert_eq!(snap.file_size, 5);
    assert!(snap.has_file);
    assert_eq!(snap.status_message, Some(StatusMessage::Text(STATUS_FILE_READY)));
    assert!(snap.is_success_message);
    assert!(!snap.is_sending);
    assert_eq!(snap.progress, Progress { done: 0, total: 1 });
}

#[test]
fn idle_screen() {
    let st = AppState::default();
    let ui = build_main_ui(&snapshot_state(&st));
    assert_eq!(ui.file_label, FileLabel::NoFile);
    assert_eq!(ui.status, StatusMessage::Text(STATUS_IDLE));
    assert_eq!(ui.status, StatusMessage::Text("等待操作"));
    assert_eq!(ui.status_color, COLOR_FAILURE);
    assert!(ui.pick_enabled);
    assert_eq!(ui.send_label, LABEL_SEND);
    assert_eq!(ui.send_event, SEND_FILE_EVENT);
    assert!(!ui.send_enabled);
    assert!(!ui.bar_filled);
}

#[test]
fn chosen_file_screen() {
    let mut st = AppState::default();
    pick_file_and_update_state(&mut st, "a.txt".to_string(), b"hello".to_vec());
    let ui = build_main_ui(&snapshot_state(&st));
    assert_eq!(ui.file_label, FileLabel::NameAndSize("a.txt".to_string(), 5));
    assert_eq!(ui.status_color, COLOR_SUCCESS);
    assert!(ui.send_enabled);
    assert!(ui.pick_enabled);
    pick_file_and_update_state(&mut st, "e.txt".to_string(), vec![]);
    let ui = build_main_ui(&snapshot_state(&st));
    assert_eq!(ui.file_label, FileLabel::Name("e.txt".to_string()));
}

#[test]
fn sending_screen() {
    let text = "a".repeat(70_000);
    let mut st = AppState::default();
    pick_file_and_update_state(&mut st, "b.txt".to_string(), text.as_bytes().to_vec());
    let _ = begin_transfer(&mut st, "dev".to_string(), "b.txt".to_string(), 70_000);
    let ui = build_main_ui(&snapshot_state(&st));
    assert_eq!(ui.status_color, COLOR_BUSY);
    assert!(!ui.pick_enabled);
    assert_eq!(ui.send_label, LABEL_CANCEL);
    assert_eq!(ui.send_event, CANCEL_SEND_EVENT);
    assert!(ui.send_enabled);
    assert!(!ui.bar_filled);
    let _ = send_chunk(&mut st, 2, false, 1);
    let ui = build_main_ui(&snapshot_state(&st));
    assert!(ui.bar_filled);
    assert_eq!(ui.progress, Progress { done: 2, total: 3 });
    assert_eq!(PICK_FILE_EVENT, "pick_file");
}

fn figures() -> ScreenFigures {
    ScreenFigures {
        size_text: "5 B".to_string(),
        fill_width: 173,
        progress_text: "进度 67%".to_string(),
        transfer_text: "传输中 67%".to_string(),
    }
}

#[test]
fn screen_tree_for_a_chosen_file() {
    let mut st = AppState::default();
    pick_file_and_update_state(&mut st, "a.txt".to_string(), b"hello".to_vec());
    let ui = build_main_ui(&snapshot_state(&st));
    let tree = main_element(&ui, &figures());
    assert_eq!(tree.kind, ElementKind::Div);
    assert_eq!(tree.children.len(), 4);
    let card = &tree.children[0];
    assert_eq!(card.children[0].text.as_deref(), Some("文件信息"));
    assert_eq!(card.children[1].text.as_deref(), Some("a.txt (5 B)"));
    let block = &tree.children[1];
    assert_eq!(block.children[0].text.as_deref(), Some("进度 67%"));
    assert_eq!(block.children[1].children[0].attrs[0], Attr::Width(173));
    assert_eq!(block.children[2].text.as_deref(), Some("已选择文件，准备发送"));
    assert!(block.children[2].attrs.contains(&Attr::TextColor("#7AAE92")));
    let buttons = &tree.children[2];
    assert_eq!(buttons.children[0].text.as_deref(), Some("选择文件"));
    assert!(!buttons.children[0].attrs.contains(&Attr::Disabled));
    assert_eq!(buttons.children[1].text.as_deref(), Some("发送到设备"));
    assert!(buttons.children[1].attrs.contains(&Attr::OnClick("send_file")));
    assert!(!buttons.children[1].attrs.contains(&Attr::Disabled));
    assert_eq!(tree.children[3].text.as_deref(), Some("提示：推荐使用 UTF-8 文本文件"));
}

#[test]
fn screen_tree_while_sending_and_idle() {
    let text = "a".repeat(70_000);
    let mut st = AppState::default();
    pick_file_and_update_state(&mut st, "b.txt".to_string(), text.as_bytes().to_vec());
    let _ = begin_transfer(&mut st, "dev".to_string(), "b.txt".to_string(), 70_000);
    let _ = send_chunk(&mut st, 2, false, 1);
    let tree = main_element(&build_main_ui(&snapshot_state(&st)), &figures());
    let buttons = &tree.children[2];
    assert_eq!(buttons.children[0].attrs[5..], [Attr::Disabled, Attr::Opacity(60)]);
    assert_eq!(buttons.children[1].text.as_deref(), Some("取消发送"));
    assert_eq!(tree.children[1].children[2].text.as_deref(), Some("传输中 67%"));

    let idle = AppState::default();
    let tree = main_element(&build_main_ui(&snapshot_state(&idle)), &figures());
    assert_eq!(tree.children[0].children[1].text.as_deref(), Some("未选择文件"));
    assert_eq!(tree.children[2].children[1].attrs[6..], [Attr::Disabled, Attr::Opacity(50)]);
    assert_eq!(tree.children[1].children[2].text.as_deref(), Some("等待操作"));
}
