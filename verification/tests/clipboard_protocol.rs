use lockbook::clipboard::{
    image_link, pasted_image_name, targets_from_bytes, Action, AtomCollection, Context, Notice,
    PasteAction, PropertyReply, ReadOutcome, ReadProgress, SelectionNotifyEvent, SelectionReply,
    State, CURRENT_TIME,
};
use lockbook::workspace_ffi::CUuid;

const WINDOW: u32 = 77;
const OWNER: u32 = 99;

fn atoms() -> AtomCollection {
    AtomCollection { clipboard: 1, targets: 2, utf8_string: 3, image_png: 4, incr: 5 }
}

fn event(requestor: u32, target: u32, property: u32) -> SelectionNotifyEvent {
    SelectionNotifyEvent { time: 1234, requestor, target, property }
}

/// Runs a step's action as successful and moves to its next state.
fn commit(ctx: &mut Context, next: Option<State>) {
    if let Some(next) = next {
        ctx.commit(next);
    }
}

#[test]
fn paste_asks_for_the_targets() {
    let mut ctx = Context::new(WINDOW, atoms());
    let step = ctx.handle_paste();
    match step.action {
        Action::ConvertSelection { requestor, selection, target, property, time } => {
            assert_eq!((requestor, selection, target, property, time), (WINDOW, 1, 2, 1, CURRENT_TIME));
        }
        other => panic!("unexpected action {:?}", other),
    }
    commit(&mut ctx, step.next);
    assert!(matches!(ctx.state(), State::AwaitingTargets));
}

#[test]
fn events_on_other_properties_are_ignored() {
    let mut ctx = Context::new(WINDOW, atoms());
    let step = ctx.handle_paste();
    commit(&mut ctx, step.next);
    assert_eq!(ctx.handle_selection_notify(&event(WINDOW, 2, 42)), SelectionReply::Ignore);
}

#[test]
fn no_paste_under_way_ignores_selection_events() {
    let ctx = Context::new(WINDOW, atoms());
    assert_eq!(ctx.handle_selection_notify(&event(WINDOW, 2, 1)), SelectionReply::Ignore);
}

#[test]
fn targets_checks() {
    let mut ctx = Context::new(WINDOW, atoms());
    let step = ctx.handle_paste();
    commit(&mut ctx, step.next);
    assert_eq!(
        ctx.handle_selection_notify(&event(WINDOW, 3, 1)),
        SelectionReply::Report(Notice::NonTargets)
    );
    assert_eq!(
        ctx.handle_selection_notify(&event(OWNER, 2, 1)),
        SelectionReply::Report(Notice::TargetsFromWrongWindow)
    );
    assert_eq!(ctx.handle_selection_notify(&event(WINDOW, 2, 1)), SelectionReply::FetchTargets);
}

#[test]
fn png_is_preferred_over_text() {
    let mut ctx = Context::new(WINDOW, atoms());
    let step = ctx.handle_paste();
    commit(&mut ctx, step.next);
    let ev = event(WINDOW, 2, 1);
    let step = ctx.targets_fetched(&ev, &vec![9, 3, 4]);
    match step.action {
        Action::ConvertSelection { requestor, selection, target, property, time } => {
            assert_eq!((requestor, selection, target, property, time), (WINDOW, 1, 4, 1, 1234));
        }
        other => panic!("unexpected action {:?}", other),
    }
    let step = ctx.targets_fetched(&ev, &vec![3]);
    assert!(matches!(step.action, Action::ConvertSelection { target: 3, .. }));
    commit(&mut ctx, step.next);
    assert!(matches!(ctx.state(), State::AwaitingData { source_window: WINDOW, format: 3 }));
}

#[test]
fn no_supported_format_ends_the_paste() {
    let mut ctx = Context::new(WINDOW, atoms());
    let step = ctx.handle_paste();
    commit(&mut ctx, step.next);
    let step = ctx.targets_fetched(&event(WINDOW, 2, 1), &vec![8, 9]);
    assert!(matches!(step.action, Action::Report(Notice::NoSupportedFormat)));
    commit(&mut ctx, step.next);
    assert!(matches!(ctx.state(), State::AwaitingPaste));
}

#[test]
fn text_paste_end_to_end() {
    let mut ctx = Context::new(WINDOW, atoms());
    let step = ctx.handle_paste();
    commit(&mut ctx, step.next);
    let ev = event(WINDOW, 2, 1);
    assert_eq!(ctx.handle_selection_notify(&ev), SelectionReply::FetchTargets);
    let step = ctx.targets_fetched(&ev, &vec![3]);
    commit(&mut ctx, step.next);

    let data_ev = event(WINDOW, 3, 1);
    assert_eq!(
        ctx.handle_selection_notify(&event(WINDOW, 4, 1)),
        SelectionReply::WrongType { received: 4, expected: 3 }
    );
    assert_eq!(
        ctx.handle_selection_notify(&event(OWNER, 3, 1)),
        SelectionReply::Report(Notice::DataFromWrongWindow)
    );
    assert_eq!(ctx.handle_selection_notify(&data_ev), SelectionReply::ReadData { format: 3 });
    let step = ctx.data_fetched(&data_ev, Some(b"hello".to_vec()));
    match &step.action {
        Action::Paste { format, data } => {
            assert_eq!(*format, 3);
            assert_eq!(data, &b"hello".to_vec());
        }
        other => panic!("unexpected action {:?}", other),
    }
    commit(&mut ctx, step.next);
    assert!(matches!(ctx.state(), State::AwaitingPaste));
}

#[test]
fn incremental_transfer_gathers_the_increments() {
    let mut ctx = Context::new(WINDOW, atoms());
    let step = ctx.handle_paste();
    commit(&mut ctx, step.next);
    let step = ctx.targets_fetched(&event(WINDOW, 2, 1), &vec![4]);
    commit(&mut ctx, step.next);
    let data_ev = event(WINDOW, 4, 1);
    let step = ctx.data_fetched(&data_ev, None);
    assert!(matches!(step.action, Action::DeleteProperty { window: WINDOW, property: 1 }));
    commit(&mut ctx, step.next);
    assert_eq!(ctx.handle_property_notify(), Some(4));

    let action = ctx.incremental_data_fetched(WINDOW, None);
    assert!(matches!(action, Action::Nothing));
    let action = ctx.incremental_data_fetched(WINDOW, Some(vec![1, 2]));
    assert!(matches!(action, Action::DeleteProperty { window: WINDOW, property: 1 }));
    let action = ctx.incremental_data_fetched(WINDOW, Some(vec![3]));
    assert!(matches!(action, Action::DeleteProperty { .. }));
    let action = ctx.incremental_data_fetched(WINDOW, Some(vec![]));
    match action {
        Action::Paste { format, data } => {
            assert_eq!(format, 4);
            assert_eq!(data, vec![1, 2, 3]);
        }
        other => panic!("unexpected action {:?}", other),
    }
    assert!(matches!(ctx.state(), State::AwaitingPaste));
    assert_eq!(ctx.handle_property_notify(), None);
}

#[test]
fn empty_incremental_transfer_pastes_nothing() {
    let mut ctx = Context::new(WINDOW, atoms());
    ctx.commit(State::AwaitingIncrementalData { incremental_data: vec![], format: 3 });
    let action = ctx.incremental_data_fetched(WINDOW, Some(vec![]));
    assert!(matches!(action, Action::Nothing));
    assert!(matches!(ctx.state(), State::AwaitingPaste));
}

#[test]
fn targets_are_four_byte_atoms() {
    let bytes = vec![1, 0, 0, 0, 0, 1, 0, 0, 9];
    let atoms = targets_from_bytes(&bytes);
    assert_eq!(atoms.len(), 2);
    assert!(atoms == vec![1, 256] || atoms == vec![1 << 24, 1 << 16]);
    assert_eq!(atoms, vec![u32::from_ne_bytes([1, 0, 0, 0]), u32::from_ne_bytes([0, 1, 0, 0])]);
    assert!(targets_from_bytes(&vec![1, 2, 3]).is_empty());
}

#[test]
fn reading_gathers_the_replies() {
    let ctx = Context::new(WINDOW, atoms());
    let p = ReadProgress::new();
    let out = ctx.read_clipboard_data_step(
        p,
        PropertyReply { type_: 3, value: vec![1, 2, 3, 4, 5, 6, 7, 8], bytes_after: 5 },
    );
    let p = match out {
        ReadOutcome::Continue(p) => p,
        other => panic!("unexpected outcome {:?}", other),
    };
    // the next read starts after two 32-bit units
    assert_eq!(p.offset, 2);
    assert_eq!(p.data, vec![1, 2, 3, 4, 5, 6, 7, 8]);
    let out = ctx.read_clipboard_data_step(
        p,
        PropertyReply { type_: 3, value: vec![9, 10, 11, 12], bytes_after: 1 },
    );
    let p = match out {
        ReadOutcome::Continue(p) => p,
        other => panic!("unexpected outcome {:?}", other),
    };
    assert_eq!(p.offset, 3);
    let p = ReadProgress { data: p.data[..8].to_vec(), offset: 2 };
    let out = ctx.read_clipboard_data_step(
        p,
        PropertyReply { type_: 3, value: vec![9], bytes_after: 0 },
    );
    assert!(matches!(out, ReadOutcome::Complete(ref d) if *d == vec![1, 2, 3, 4, 5, 6, 7, 8, 9]));
    let out = ctx.read_clipboard_data_step(
        ReadProgress::new(),
        PropertyReply { type_: 5, value: vec![0, 0, 0, 9], bytes_after: 0 },
    );
    assert!(matches!(out, ReadOutcome::Incremental));
}

#[test]
fn paste_kinds() {
    let ctx = Context::new(WINDOW, atoms());
    match ctx.app_paste(3, &b"caf\xc3\xa9".to_vec()) {
        PasteAction::Text(t) => assert_eq!(t, "café"),
        other => panic!("unexpected paste {:?}", other),
    }
    match ctx.app_paste(3, &vec![b'a', 0xff, b'b']) {
        PasteAction::Text(t) => assert_eq!(t, "a\u{fffd}b"),
        other => panic!("unexpected paste {:?}", other),
    }
    assert!(matches!(ctx.app_paste(4, &vec![0x89, b'P']), PasteAction::Image));
    assert!(matches!(ctx.app_paste(6, &vec![]), PasteAction::Unsupported));
}

#[test]
fn pasted_image_names_and_links() {
    assert_eq!(pasted_image_name(0), "pasted_image_0.png");
    assert_eq!(pasted_image_name(1700000000123456), "pasted_image_1700000000123456.png");
    assert_eq!(pasted_image_name(u128::MAX), format!("pasted_image_{}.png", u128::MAX));
    let id = CUuid::from_bytes([
        0x67, 0xe5, 0x50, 0x44, 0x10, 0xb1, 0x42, 0x6f, 0x92, 0x47, 0xbb, 0x68, 0x0e, 0x5f, 0xe0, 0xc8,
    ]);
    assert_eq!(image_link(&id), "![pasted image](lb://67e55044-10b1-426f-9247-bb680e5fe0c8)");
}

#[test]
fn notice_messages() {
    assert_eq!(Notice::NonTargets.message(), "handle selection: awaiting targets but received non-targets");
    assert_eq!(Notice::TargetsFromWrongWindow.message(), "handle selection: received targets from wrong window");
    assert_eq!(Notice::NoSupportedFormat.message(), "handle selection: no supported formats available");
    assert_eq!(Notice::DataFromWrongWindow.message(), "handle selection: received data from wrong window");
}
