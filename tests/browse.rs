use file_explorer::{
    layer_frame, ButtonAction, dispatch, help_text, join_path, key_bindings, kind_marker, render_rows, AccessError,
    BackOutcome, Command, EntryKind, Explorer, Key, Listing, ModeStack, NavigationState, RawEntry,
    RowAction, Step, UiMode,
};

fn raw(name: &str, kind: EntryKind) -> RawEntry {
    RawEntry { name: name.to_string(), kind }
}

fn tmp_x() -> Vec<RawEntry> {
    vec![raw("a", EntryKind::Directory), raw("b.txt", EntryKind::File)]
}

fn denied(path: &str) -> AccessError {
    AccessError { path: path.to_string(), reason: "permission denied".to_string() }
}

fn names(l: &Listing) -> (Vec<String>, Vec<String>) {
    (
        l.dirs.iter().map(|e| e.name.clone()).collect(),
        l.files.iter().map(|e| e.name.clone()).collect(),
    )
}

#[test]
fn join_adds_separator() {
    assert_eq!(join_path("/tmp/x", "a"), "/tmp/x/a");
    assert_eq!(join_path("/", "a"), "/a");
    assert_eq!(join_path("/tmp/x/", "b.txt"), "/tmp/x/b.txt");
    assert_eq!(join_path("", "a"), "/a");
}

#[test]
fn markers_per_kind() {
    assert_eq!(kind_marker(EntryKind::File), "--- File");
    assert_eq!(kind_marker(EntryKind::Directory), "--- Directory");
    assert_eq!(kind_marker(EntryKind::Symlink), "--- Symlink");
    assert_eq!(kind_marker(EntryKind::Other), "--- Other");
}

#[test]
fn classify_falls_back_to_other() {
    assert_eq!(EntryKind::classify(true, false, false), EntryKind::File);
    assert_eq!(EntryKind::classify(false, true, false), EntryKind::Directory);
    assert_eq!(EntryKind::classify(false, false, true), EntryKind::Symlink);
    assert_eq!(EntryKind::classify(false, false, false), EntryKind::Other);
}

#[test]
fn listing_partitions_in_enumeration_order() {
    let raws = vec![
        raw("z.txt", EntryKind::File),
        raw("m", EntryKind::Directory),
        raw("link", EntryKind::Symlink),
        raw("a.txt", EntryKind::File),
        raw("b", EntryKind::Directory),
        raw("dev", EntryKind::Other),
    ];
    let l = Listing::from_raw("/d", &raws);
    let (dirs, files) = names(&l);
    assert_eq!(dirs, vec!["m", "b"]);
    assert_eq!(files, vec!["z.txt", "a.txt"]);
    assert_eq!(l.dirs[1].full_path, "/d/b");
    assert_eq!(l.files[0].full_path, "/d/z.txt");
    assert_eq!(l.len(), 4);
}

#[test]
fn empty_directory_lists_nothing() {
    let nav = NavigationState::start("/e".to_string(), Ok(Vec::new())).unwrap();
    assert_eq!(nav.listing().len(), 0);
    assert!(nav.rows().is_empty());
}

#[test]
fn scenario_enter_select_and_back() {
    let mut x = Explorer::start("/tmp/x".to_string(), Ok(tmp_x())).unwrap();
    let (dirs, files) = names(x.nav().listing());
    assert_eq!(dirs, vec!["a"]);
    assert_eq!(files, vec!["b.txt"]);
    assert_eq!(x.nav().stack(), &vec!["/tmp/x".to_string()]);

    let step = x.select_row(0);
    let path = match step {
        Step::List(p) => p,
        other => panic!("unexpected step {:?}", other),
    };
    assert_eq!(path, "/tmp/x/a");
    assert!(x.finish_enter(path, Ok(Vec::new())));
    assert_eq!(x.nav().stack(), &vec!["/tmp/x".to_string(), "/tmp/x/a".to_string()]);
    assert_eq!(x.nav().current_path(), "/tmp/x/a");

    let step = x.key(Key::Backspace);
    assert!(matches!(&step, Step::ListParent(p) if p == "/tmp/x"));
    assert!(x.finish_back(Ok(tmp_x())));
    assert_eq!(x.nav().stack(), &vec!["/tmp/x".to_string()]);
    let (dirs, files) = names(x.nav().listing());
    assert_eq!(dirs, vec!["a"]);
    assert_eq!(files, vec!["b.txt"]);
}

#[test]
fn scenario_revoked_permissions_keep_listing() {
    let mut x = Explorer::start("/tmp/x".to_string(), Ok(tmp_x())).unwrap();
    let ok = x.finish_enter("/tmp/x/a".to_string(), Err(denied("/tmp/x/a")));
    assert!(!ok);
    assert_eq!(x.nav().stack(), &vec!["/tmp/x".to_string()]);
    let (dirs, files) = names(x.nav().listing());
    assert_eq!(dirs, vec!["a"]);
    assert_eq!(files, vec!["b.txt"]);
    assert_eq!(x.mode(), UiMode::ErrorOverlay);
    assert_eq!(x.last_error().as_ref().unwrap().path, "/tmp/x/a");
    assert!(x.dismiss());
    assert_eq!(x.mode(), UiMode::Browsing);
}

#[test]
fn failed_enter_returns_access_error() {
    let mut nav = NavigationState::start("/r".to_string(), Ok(tmp_x())).unwrap();
    let r = nav.enter("/r/a".to_string(), Err(denied("/r/a")));
    assert_eq!(r.unwrap_err().reason, "permission denied");
    assert_eq!(nav.depth(), 1);
    assert_eq!(nav.current_path(), "/r");
}

#[test]
fn failed_back_keeps_state() {
    let mut nav = NavigationState::start("/r".to_string(), Ok(tmp_x())).unwrap();
    nav.enter("/r/a".to_string(), Ok(vec![raw("f", EntryKind::File)])).unwrap();
    let r = nav.go_back(Err(denied("/r")));
    assert!(r.is_err());
    assert_eq!(nav.depth(), 2);
    assert_eq!(nav.current_path(), "/r/a");
    assert_eq!(nav.listing().files[0].full_path, "/r/a/f");
}

#[test]
fn go_back_at_root_is_noop() {
    let mut nav = NavigationState::start("/r".to_string(), Ok(tmp_x())).unwrap();
    assert_eq!(nav.back_target(), None);
    let r = nav.go_back(Ok(vec![raw("other", EntryKind::File)]));
    assert_eq!(r.unwrap(), BackOutcome::NoOp);
    assert_eq!(nav.depth(), 1);
    let (dirs, files) = names(nav.listing());
    assert_eq!(dirs, vec!["a"]);
    assert_eq!(files, vec!["b.txt"]);
    let mut x = Explorer::start("/r".to_string(), Ok(tmp_x())).unwrap();
    assert!(matches!(x.key(Key::Backspace), Step::Redraw));
    assert!(x.finish_back(Err(denied("/r"))));
    assert_eq!(x.mode(), UiMode::Browsing);
}

#[test]
fn current_path_tracks_top() {
    let mut nav = NavigationState::start("/r".to_string(), Ok(tmp_x())).unwrap();
    nav.enter("/r/a".to_string(), Ok(Vec::new())).unwrap();
    nav.enter("/r/a/b".to_string(), Ok(Vec::new())).unwrap();
    assert_eq!(nav.current_path(), nav.stack().last().unwrap());
    assert_eq!(nav.back_target().unwrap(), "/r/a");
    assert_eq!(nav.go_back(Ok(Vec::new())).unwrap(), BackOutcome::Moved);
    assert_eq!(nav.current_path(), "/r/a");
    assert_eq!(nav.current_path(), nav.stack().last().unwrap());
}

#[test]
fn row_count_and_back_row() {
    let raws = vec![
        raw("d1", EntryKind::Directory),
        raw("d2", EntryKind::Directory),
        raw("f1", EntryKind::File),
        raw("s", EntryKind::Symlink),
    ];
    let l = Listing::from_raw("/p", &raws);
    let at_root = render_rows(&l, 1);
    assert_eq!(at_root.len(), 3);
    let deeper = render_rows(&l, 2);
    assert_eq!(deeper.len(), 4);
    assert_eq!(deeper[3].label, "- Go Back -");
    assert!(matches!(deeper[3].action, RowAction::GoBack));
    assert_eq!(deeper[0].label, "--- Directory /p/d1");
    assert!(matches!(&deeper[1].action, RowAction::Enter(p) if p == "/p/d2"));
    assert_eq!(deeper[2].label, "--- File /p/f1");
    assert!(matches!(deeper[2].action, RowAction::Quit));
}

#[test]
fn directory_row_deepens_history() {
    let mut x = Explorer::start("/r".to_string(), Ok(tmp_x())).unwrap();
    let before = x.nav().depth();
    if let Step::List(p) = x.select_row(0) {
        assert!(x.finish_enter(p.clone(), Ok(Vec::new())));
        assert_eq!(x.nav().depth(), before + 1);
        assert_eq!(x.nav().current_path(), &p);
    } else {
        panic!("a directory row must ask for its listing");
    }
    let rows = x.rows();
    assert_eq!(rows.len(), 1);
    assert!(matches!(x.select_row(0), Step::ListParent(p) if p == "/r"));
}

#[test]
fn file_row_quits() {
    let mut x = Explorer::start("/tmp/x".to_string(), Ok(tmp_x())).unwrap();
    assert!(matches!(x.select_row(1), Step::Quit));
    assert!(matches!(x.select_row(7), Step::Redraw));
    assert_eq!(x.nav().depth(), 1);
}

#[test]
fn help_round_trip_restores_modes() {
    let mut x = Explorer::start("/r".to_string(), Ok(tmp_x())).unwrap();
    x.command(Command::OpenSearch);
    let before = x.modes().layers().clone();
    assert!(matches!(x.key(Key::Char('h')), Step::Redraw));
    assert_eq!(x.mode(), UiMode::HelpOverlay);
    assert!(x.dismiss());
    assert_eq!(x.modes().layers(), &before);
    assert_eq!(x.mode(), UiMode::SearchOverlay);
}

#[test]
fn dismiss_on_browsing_is_noop() {
    let mut m = ModeStack::new();
    assert!(!m.dismiss());
    assert_eq!(m.layers(), &vec![UiMode::Browsing]);
    m.open_help();
    m.open_search();
    assert_eq!(m.depth(), 3);
    assert_eq!(m.current(), UiMode::SearchOverlay);
}

#[test]
fn back_key_ignored_in_overlay() {
    let mut x = Explorer::start("/r".to_string(), Ok(tmp_x())).unwrap();
    x.finish_enter("/r/a".to_string(), Ok(Vec::new()));
    x.command(Command::OpenHelp);
    assert!(matches!(x.key(Key::Backspace), Step::Redraw));
    assert_eq!(x.nav().depth(), 2);
}

#[test]
fn key_table_is_fixed() {
    let t = key_bindings();
    assert_eq!(
        t,
        vec![
            (Key::Backspace, Command::GoBack),
            (Key::Char('h'), Command::OpenHelp),
            (Key::Char('s'), Command::OpenSearch),
            (Key::Char('q'), Command::Quit),
        ]
    );
    assert_eq!(dispatch(Key::Char('q')), Some(Command::Quit));
    assert_eq!(dispatch(Key::Char('s')), Some(Command::OpenSearch));
    assert_eq!(dispatch(Key::Backspace), Some(Command::GoBack));
    assert_eq!(dispatch(Key::Char('x')), None);
}

#[test]
fn quit_key_ends_session() {
    let mut x = Explorer::start("/r".to_string(), Ok(tmp_x())).unwrap();
    x.command(Command::OpenHelp);
    assert!(matches!(x.key(Key::Char('q')), Step::Quit));
    assert!(matches!(x.key(Key::Char('z')), Step::Redraw));
}

#[test]
fn invalid_root_is_refused() {
    let r = Explorer::start("/missing".to_string(), Err(denied("/missing")));
    let e = r.err().unwrap();
    assert_eq!(e.path, "/missing");
    assert_eq!(e.reason, "permission denied");
}

#[test]
fn help_mentions_keys() {
    let h = help_text();
    assert!(h.contains("<s>"));
    assert!(h.contains("<q>"));
    assert!(h.contains("<h>"));
    assert_eq!(h.lines().count(), 5);
    assert_eq!(
        h,
        "Press <> to create new File \nPress <> to create new Folder \nPress <s> to Search \nPress <q> to exit program \nPress <h> to open Help"
    );
}

#[test]
fn layer_frames_are_fixed() {
    let b = layer_frame(UiMode::Browsing);
    assert_eq!(b.title, "Your Directories");
    assert_eq!(
        b.buttons,
        vec![
            ("Exit".to_string(), ButtonAction::Run(Command::Quit)),
            ("Help".to_string(), ButtonAction::Run(Command::OpenHelp)),
            ("Search".to_string(), ButtonAction::Run(Command::OpenSearch)),
        ]
    );
    assert!(!b.text_input);
    let h = layer_frame(UiMode::HelpOverlay);
    assert_eq!(h.title, "Help:");
    assert_eq!(h.buttons, vec![("Exit".to_string(), ButtonAction::Dismiss)]);
    assert!(!h.text_input);
    let s = layer_frame(UiMode::SearchOverlay);
    assert_eq!(s.title, "Search");
    assert_eq!(s.buttons, vec![("Exit".to_string(), ButtonAction::Dismiss)]);
    assert!(s.text_input);
    let e = layer_frame(UiMode::ErrorOverlay);
    assert_eq!(e.title, "Error");
    assert_eq!(e.buttons, vec![("OK".to_string(), ButtonAction::Dismiss)]);
}

#[test]
fn help_exit_button_round_trip() {
    let mut x = Explorer::start("/tmp/x".to_string(), Ok(tmp_x())).unwrap();
    x.finish_enter("/tmp/x/a".to_string(), Ok(Vec::new()));
    let before_modes = x.modes().layers().clone();
    let before_stack = x.nav().stack().clone();
    assert!(matches!(x.press(ButtonAction::Run(Command::OpenHelp)), Step::Redraw));
    assert_eq!(x.mode(), UiMode::HelpOverlay);
    assert!(matches!(x.press(ButtonAction::Dismiss), Step::Redraw));
    assert_eq!(x.modes().layers(), &before_modes);
    assert_eq!(x.nav().stack(), &before_stack);
    assert!(matches!(x.press(ButtonAction::Run(Command::Quit)), Step::Quit));
}
