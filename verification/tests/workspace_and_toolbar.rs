use lockbook::toolbar::{get_buttons, get_hide_keyboard_components, get_mobile_components, toggle_heading_style};
use lockbook::logger::is_lb_fs_target;
use lockbook::server_file::{IntoServerFile, ServerFile};
use lockbook::toolbar::{
    Component, Icon, InlineStyle, ListItem, Margin, MarkdownEvent, ToolBar, ToolBarVisibility,
    ToolbarAction, ToolbarEffect,
};
use lockbook::workspace_ffi::{
    CTextGranularity, CTextLayoutDirection, CTextPosition, CTextRange, CUuid, FfiWorkspaceResp,
};

#[test]
fn text_ranges_give_their_offsets() {
    let range = CTextRange {
        none: false,
        start: CTextPosition { none: false, pos: 3 },
        end: CTextPosition { none: false, pos: 11 },
    };
    assert_eq!(range.into_offsets(), (3, 11));
    assert_eq!(CTextPosition { none: true, pos: 7 }.into_offset(), 7);
    let d = CTextRange::default();
    assert!(!d.none && !d.start.none && !d.end.none);
    assert_eq!(d.into_offsets(), (0, 0));
}

#[test]
fn layout_directions_across_the_c_interface() {
    assert_eq!(CTextLayoutDirection::Right.to_c_value(), 2);
    assert_eq!(CTextLayoutDirection::Down.to_c_value(), 5);
    for d in [CTextLayoutDirection::Right, CTextLayoutDirection::Left, CTextLayoutDirection::Up, CTextLayoutDirection::Down] {
        assert_eq!(CTextLayoutDirection::from_c_value(d.to_c_value()), Some(d));
    }
    assert_eq!(CTextLayoutDirection::from_c_value(0), None);
    assert_eq!(CTextLayoutDirection::from_c_value(6), None);
}

#[test]
fn granularities_across_the_c_interface() {
    assert_eq!(CTextGranularity::Character.to_c_value(), 0);
    assert_eq!(CTextGranularity::Document.to_c_value(), 5);
    for v in 0..6u32 {
        assert_eq!(CTextGranularity::from_c_value(v).map(|g| g.to_c_value()), Some(v));
    }
    assert_eq!(CTextGranularity::from_c_value(6), None);
}

#[test]
fn uuids_as_bytes_and_text() {
    let bytes = [0x67, 0xe5, 0x50, 0x44, 0x10, 0xb1, 0x42, 0x6f, 0x92, 0x47, 0xbb, 0x68, 0x0e, 0x5f, 0xe0, 0xc8];
    let id = CUuid::from_bytes(bytes);
    assert_eq!(id.to_text(), "67e55044-10b1-426f-9247-bb680e5fe0c8");
    assert_eq!(id.into_bytes(), bytes);
    assert_eq!(CUuid::nil().to_text(), "00000000-0000-0000-0000-000000000000");
    assert_eq!(CUuid::nil().into_bytes(), [0u8; 16]);
}

#[test]
fn workspace_response_selected_file() {
    assert_eq!(FfiWorkspaceResp::default().selected_file().to_text(), "00000000-0000-0000-0000-000000000000");
    let none = FfiWorkspaceResp::from_selected_file(None);
    assert_eq!(none.selected_file().to_text(), CUuid::nil().to_text());
    let some = FfiWorkspaceResp::from_selected_file(Some(CUuid::from_bytes([0xab; 16])));
    assert_eq!(some.selected_file().to_text(), "abababab-abab-abab-abab-abababababab");
}

fn ids(t: &ToolBar) -> Vec<String> {
    t.buttons().iter().map(|b| b.id().clone()).collect()
}

#[test]
fn toolbar_buttons_by_visibility() {
    let t = ToolBar::new(&ToolBarVisibility::Maximized);
    assert_eq!(
        ids(&t),
        vec![
            "header", "bold", "italic", "in_line_code", "strikethrough", "number_list",
            "bullet_list", "todo_list", "link", "visibility_off"
        ]
    );
    assert_eq!(t.buttons()[0].icon(), Icon::Header1);
    assert_eq!(t.buttons()[9].callback(), ToolbarAction::HideToolbar);
    assert_eq!(t.header_click_count(), 1);
    assert!(!t.has_focus);
    let t = ToolBar::new(&ToolBarVisibility::Minimized);
    assert_eq!(ids(&t), vec!["visibility_on"]);
    assert_eq!(t.buttons()[0].callback(), ToolbarAction::ShowToolbar);
    let t = ToolBar::new(&ToolBarVisibility::Disabled);
    assert!(t.buttons().is_empty());
}

#[test]
fn mobile_components() {
    let t = ToolBar::new(&ToolBarVisibility::Disabled);
    let names: Vec<String> = t
        .mobile_components()
        .iter()
        .map(|c| match c {
            Component::Button(b) => b.id().clone(),
            Component::Separator(m) => format!("|{}|", m.left),
        })
        .collect();
    assert_eq!(
        names,
        vec![
            "header", "bold", "italic", "in_line_code", "strikethrough", "|10|", "number_list",
            "bullet_list", "todo_list", "|10|", "link", "|10|", "indent", "deindent", "undo", "redo"
        ]
    );
    let hide = t.hide_keyboard_components();
    assert_eq!(hide.len(), 2);
    assert!(matches!(&hide[0], Component::Button(b) if b.callback() == ToolbarAction::HideKeyboard));
    assert!(matches!(&hide[1], Component::Separator(m) if *m == Margin { left: 10, right: 10, top: 0, bottom: 0 }));
}

#[test]
fn header_button_cycles_h1_to_h6() {
    let mut t = ToolBar::new(&ToolBarVisibility::Maximized);
    let mut levels = Vec::new();
    for _ in 0..7 {
        match t.invoke(ToolbarAction::ToggleHeading) {
            ToolbarEffect::Markdown(MarkdownEvent::ToggleHeading(n)) => levels.push(n),
            other => panic!("unexpected effect {:?}", other),
        }
    }
    assert_eq!(levels, vec![2, 3, 4, 5, 6, 1, 2]);
}

#[test]
fn hovering_other_buttons_resets_the_heading() {
    let mut t = ToolBar::new(&ToolBarVisibility::Maximized);
    t.invoke(ToolbarAction::ToggleHeading);
    t.invoke(ToolbarAction::ToggleHeading);
    t.button_hovered(0);
    assert_eq!(t.header_click_count(), 3);
    t.button_hovered(1);
    assert_eq!(t.header_click_count(), 1);
}

#[test]
fn hiding_and_showing_the_toolbar() {
    let mut t = ToolBar::new(&ToolBarVisibility::Maximized);
    assert_eq!(t.invoke(ToolbarAction::HideToolbar), ToolbarEffect::Nothing);
    assert_eq!(t.visibility, ToolBarVisibility::Minimized);
    assert_eq!(ids(&t), vec!["visibility_on"]);
    assert_eq!(t.invoke(ToolbarAction::ShowToolbar), ToolbarEffect::Nothing);
    assert_eq!(t.visibility, ToolBarVisibility::Maximized);
    assert_eq!(ids(&t).len(), 10);
}

#[test]
fn formatting_buttons_send_markdown_events() {
    let mut t = ToolBar::new(&ToolBarVisibility::Maximized);
    assert_eq!(t.invoke(ToolbarAction::Bold), ToolbarEffect::Markdown(MarkdownEvent::ToggleInline(InlineStyle::Bold)));
    assert_eq!(t.invoke(ToolbarAction::Link), ToolbarEffect::Markdown(MarkdownEvent::ToggleInline(InlineStyle::InlineLink)));
    assert_eq!(
        t.invoke(ToolbarAction::NumberedList),
        ToolbarEffect::Markdown(MarkdownEvent::ToggleListItem { item: ListItem::Numbered(1), indent: 0 })
    );
    assert_eq!(
        t.invoke(ToolbarAction::TodoList),
        ToolbarEffect::Markdown(MarkdownEvent::ToggleListItem { item: ListItem::Todo(false), indent: 0 })
    );
    assert_eq!(t.invoke(ToolbarAction::Deindent), ToolbarEffect::Markdown(MarkdownEvent::Indent { deindent: true }));
    assert_eq!(t.invoke(ToolbarAction::HideKeyboard), ToolbarEffect::HideVirtualKeyboard);
    assert_eq!(t.invoke(ToolbarAction::Undo), ToolbarEffect::Markdown(MarkdownEvent::Undo));
    // the redo button sends an undo event
    assert_eq!(t.invoke(ToolbarAction::Redo), ToolbarEffect::Markdown(MarkdownEvent::Undo));
}

#[test]
fn toolbar_width() {
    let t = ToolBar::new(&ToolBarVisibility::Maximized);
    assert_eq!(t.width(30), 470);
    let t = ToolBar::new(&ToolBarVisibility::Minimized);
    assert_eq!(t.width(30), 74);
}

#[test]
fn server_files_carry_their_version() {
    let stamped: ServerFile<&str> = "signed".add_time(42);
    assert_eq!(stamped.file, "signed");
    assert_eq!(stamped.version, 42);
}

#[test]
fn lb_fs_targets() {
    assert!(is_lb_fs_target("lb_fs"));
    assert!(is_lb_fs_target("lb_fs::fs_impl"));
    assert!(!is_lb_fs_target("lb_rs::service"));
    assert!(!is_lb_fs_target("lb_f"));
    assert!(!is_lb_fs_target(""));
    assert!(!is_lb_fs_target("xlb_fs"));
}

#[test]
fn mobile_items_put_the_keyboard_items_first() {
    let t = ToolBar::new(&ToolBarVisibility::Maximized);
    let shown = t.mobile_items(true);
    assert_eq!(shown.len(), 18);
    assert!(matches!(&shown[0], Component::Button(b) if b.callback() == ToolbarAction::HideKeyboard));
    assert!(matches!(&shown[2], Component::Button(b) if b.id() == "header"));
    let hidden = t.mobile_items(false);
    assert_eq!(hidden.len(), 16);
    assert!(matches!(&hidden[15], Component::Button(b) if b.id() == "redo"));
}

#[test]
fn public_button_lists() {
    assert_eq!(get_buttons(&ToolBarVisibility::Maximized).len(), 10);
    assert_eq!(get_buttons(&ToolBarVisibility::Disabled).len(), 0);
    assert_eq!(get_mobile_components().len(), 16);
    assert_eq!(get_hide_keyboard_components().len(), 2);
    let mut t = ToolBar::new(&ToolBarVisibility::Maximized);
    assert_eq!(toggle_heading_style(&mut t), MarkdownEvent::ToggleHeading(2));
    assert_eq!(t.header_click_count(), 2);
}

#[test]
fn server_files_compare_by_file_and_version() {
    assert_eq!(7u8.add_time(1), ServerFile { file: 7u8, version: 1 });
    assert_ne!(7u8.add_time(1), 7u8.add_time(2));
}
