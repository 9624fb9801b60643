use walter_ui::app::{Action, App, BlobInfo, CurrentScreen, Key, MAX_EPOCHS, MIN_EPOCHS};
use walter_ui::selection::Selection;

fn blobs(n: usize) -> Vec<BlobInfo> {
    (0..n).map(|i| BlobInfo { blob_id: format!("blob{}", i) }).collect()
}

fn press_all(app: &mut App, keys: &[Key]) -> Vec<Action> {
    keys.iter().map(|k| app.handle_key(*k)).collect()
}

#[test]
fn fresh_session_starts_on_splash() {
    let app = App::new();
    assert_eq!(app.current_screen, CurrentScreen::Splash);
    assert!(!app.should_quit);
    assert!(!app.is_editing);
    assert_eq!(app.selection.selected, None);
    assert_eq!(app.epochs, MIN_EPOCHS);
    assert_eq!(app.filename, "");
}

#[test]
fn splash_confirm_then_navigation_wraps() {
    let mut app = App::new();
    app.replace_items(blobs(3));
    assert_eq!(app.selection.selected, None);
    assert_eq!(app.handle_key(Key::Enter), Action::Nothing);
    assert_eq!(app.current_screen, CurrentScreen::Dashboard);
    assert_eq!(app.selection.selected, Some(0));
    press_all(&mut app, &[Key::Down, Key::Down]);
    assert_eq!(app.selection.selected, Some(2));
    assert_eq!(app.selection.scroll_position, 2);
    app.handle_key(Key::Down);
    assert_eq!(app.selection.selected, Some(0));
    assert_eq!(app.selection.scroll_position, 0);
}

#[test]
fn uploader_typing_and_upload_outcomes() {
    let mut app = App::new();
    app.handle_key(Key::Char('2'));
    assert_eq!(app.current_screen, CurrentScreen::Uploader);
    app.handle_key(Key::Char('e'));
    assert!(app.is_editing);
    press_all(&mut app, &[Key::Char('a'), Key::Char('b'), Key::Char('c')]);
    assert_eq!(app.filename, "abc");
    assert_eq!(app.handle_key(Key::Enter), Action::Upload);
    assert_eq!(app.file_upload_status, "Uploading file...");

    app.finish_upload(Ok("XyZ123".to_string()), Some(blobs(2)));
    assert!(app.file_upload_status.contains("XyZ123"));
    assert_eq!(app.file_upload_status, "File uploaded successfully! Blob ID XyZ123");
    assert_eq!(app.user_blobs.len(), 2);

    app.finish_upload(Err("network down".to_string()), None);
    assert_eq!(app.file_upload_status, "File upload failed: network down");
    assert_eq!(app.user_blobs.len(), 2);
}

#[test]
fn upload_success_with_failed_refresh_keeps_list() {
    let mut app = App::new();
    app.replace_items(blobs(4));
    app.finish_upload(Ok("id9".to_string()), None);
    assert_eq!(
        app.file_upload_status,
        "File uploaded successfully! Blob ID id9 (blob list not refreshed)"
    );
    assert_eq!(app.user_blobs.len(), 4);
}

#[test]
fn quit_confirmation_cancel_then_accept() {
    let mut app = App::new();
    app.handle_key(Key::Char('3'));
    assert_eq!(app.handle_key(Key::Char('q')), Action::Nothing);
    assert!(app.should_quit);
    assert_eq!(app.handle_key(Key::Char('x')), Action::Nothing);
    assert_eq!(app.handle_key(Key::Char('2')), Action::Nothing);
    assert_eq!(app.current_screen, CurrentScreen::Migrator);
    assert_eq!(app.handle_key(Key::Char('n')), Action::Nothing);
    assert!(!app.should_quit);
    assert_eq!(app.current_screen, CurrentScreen::Migrator);
    app.handle_key(Key::Char('q'));
    assert_eq!(app.handle_key(Key::Char('y')), Action::Quit);
}

#[test]
fn quit_key_while_editing_is_typed() {
    let mut app = App::new();
    press_all(&mut app, &[Key::Char('2'), Key::Char('e'), Key::Char('q')]);
    assert!(!app.should_quit);
    assert_eq!(app.filename, "q");
}

#[test]
fn advance_cycles_and_retreat_inverts() {
    for n in 1..6usize {
        for start in 0..n {
            let mut s = Selection { selected: Some(start), scroll_position: start };
            for _ in 0..n {
                s.advance(n);
            }
            assert_eq!(s.selected, Some(start));
            s.advance(n);
            s.retreat(n);
            assert_eq!(s.selected, Some(start));
        }
    }
}

#[test]
fn retreat_wraps_to_last_row() {
    let mut s = Selection { selected: Some(0), scroll_position: 0 };
    s.retreat(5);
    assert_eq!(s.selected, Some(4));
    assert_eq!(s.scroll_position, 4);
    let mut t = Selection::new();
    t.retreat(5);
    assert_eq!(t.selected, Some(0));
}

#[test]
fn navigation_on_empty_list_changes_nothing() {
    let mut s = Selection::new();
    s.advance(0);
    s.retreat(0);
    assert_eq!(s, Selection::new());
    let mut app = App::new();
    app.handle_key(Key::Char('1'));
    press_all(&mut app, &[Key::Down, Key::Up, Key::Char('c')]);
    assert_eq!(app.selection.selected, None);
    app.next_row();
    app.prev_row();
    assert_eq!(app.selection.selected, None);
}

#[test]
fn reset_drops_stale_selection() {
    let mut s = Selection { selected: Some(4), scroll_position: 4 };
    s.reset(5);
    assert_eq!(s.selected, Some(4));
    s.reset(3);
    assert_eq!(s.selected, None);
    assert_eq!(s.scroll_position, 0);
}

#[test]
fn edit_then_escape_keeps_text() {
    let mut app = App::new();
    app.handle_key(Key::Char('2'));
    press_all(&mut app, &[Key::Char('e'), Key::Char('x'), Key::Char('y')]);
    assert_eq!(app.filename, "xy");
    app.handle_key(Key::Esc);
    assert!(!app.is_editing);
    assert_eq!(app.filename, "xy");
    assert_eq!(app.current_screen, CurrentScreen::Uploader);
    app.handle_key(Key::Char('e'));
    app.handle_key(Key::Esc);
    assert_eq!(app.filename, "xy");
}

#[test]
fn switching_screens_keeps_typed_text() {
    let mut app = App::new();
    press_all(&mut app, &[Key::Char('2'), Key::Char('e'), Key::Char('a'), Key::Char('b'), Key::Char('c')]);
    app.handle_key(Key::Char('3'));
    assert_eq!(app.current_screen, CurrentScreen::Migrator);
    assert!(!app.is_editing);
    app.handle_key(Key::Char('2'));
    assert_eq!(app.current_screen, CurrentScreen::Uploader);
    assert_eq!(app.filename, "abc");
}

#[test]
fn epochs_stay_in_range() {
    let mut app = App::new();
    app.handle_key(Key::Char('2'));
    for _ in 0..250 {
        app.handle_key(Key::Char('+'));
    }
    assert_eq!(app.epochs, MAX_EPOCHS);
    assert_eq!(app.epochs, 200);
    for _ in 0..250 {
        app.handle_key(Key::Down);
    }
    assert_eq!(app.epochs, 1);
    app.handle_key(Key::Up);
    app.handle_key(Key::Char('-'));
    assert_eq!(app.epochs, 1);
}

#[test]
fn backspace_on_empty_filename_is_noop() {
    let mut app = App::new();
    press_all(&mut app, &[Key::Char('2'), Key::Char('e'), Key::Backspace]);
    assert_eq!(app.filename, "");
    press_all(&mut app, &[Key::Char('a'), Key::Char('b'), Key::Backspace]);
    assert_eq!(app.filename, "a");
}

#[test]
fn dashboard_copy_names_selected_row() {
    let mut app = App::new();
    app.replace_items(blobs(3));
    app.handle_key(Key::Enter);
    app.handle_key(Key::Down);
    assert_eq!(app.handle_key(Key::Char('C')), Action::CopyBlobId(1));
}

#[test]
fn migrator_keys_and_outcomes() {
    let mut app = App::new();
    app.handle_key(Key::Char('3'));
    assert_eq!(app.handle_key(Key::Char('p')), Action::PasteApiKey);
    app.paste_api_key(Some("key-123".to_string()));
    assert_eq!(app.pinata_api_key, "key-123");
    app.paste_api_key(None);
    assert_eq!(app.pinata_api_key, "key-123");
    assert_eq!(app.migration_status, "Clipboard unavailable");
    app.handle_key(Key::Char('x'));
    assert_eq!(app.pinata_api_key, "");
    assert_eq!(app.handle_key(Key::Char('M')), Action::Migrate);
    assert_eq!(app.migration_status, "Migrating files...");
    app.finish_migration(Ok(()), Some(blobs(1)));
    assert_eq!(app.migration_status, "Migration successful");
    assert_eq!(app.user_blobs.len(), 1);
    app.finish_migration(Err("bad key".to_string()), None);
    assert_eq!(app.migration_status, "Migration failed: bad key");
}

#[test]
fn sharder_letters_are_typed_while_editing() {
    let mut app = App::new();
    app.handle_key(Key::Char('4'));
    assert_eq!(app.handle_key(Key::Char('e')), Action::Nothing);
    let actions = press_all(&mut app, &[Key::Char('k'), Key::Char('y'), Key::Char('t'), Key::Char('p')]);
    assert!(actions.iter().all(|a| *a == Action::Nothing));
    assert_eq!(app.filename, "kytp");
    app.handle_key(Key::Backspace);
    assert_eq!(app.filename, "kyt");
    assert_eq!(app.sharder_status, "");
}

#[test]
fn sharder_actions_when_not_editing() {
    let mut app = App::new();
    app.handle_key(Key::Char('4'));
    assert_eq!(app.handle_key(Key::Char('K')), Action::Shard);
    assert_eq!(app.sharder_status, "Sharding started...");
    app.finish_shard("sharded".to_string());
    assert_eq!(app.sharder_status, "sharded");
    assert_eq!(app.handle_key(Key::Char('y')), Action::Shard);
    assert_eq!(app.shard_pass, "password");
    assert_eq!(app.handle_key(Key::Char('t')), Action::ExtendEpoch);
    app.finish_extend("extended".to_string());
    assert_eq!(app.extender_status, "extended");
    assert_eq!(app.handle_key(Key::Char('P')), Action::PasteBlobId);
    app.paste_blob_id(Some("blob7".to_string()));
    assert_eq!(app.extender_blob_id, "blob7");
    app.paste_blob_id(None);
    assert_eq!(app.extender_blob_id, "blob7");
    assert_eq!(app.extender_status, "Clipboard unavailable");
}

#[test]
fn session_info_is_trimmed() {
    let mut app = App::new();
    app.set_session_info("  testnet\n", "\t0xabc  ", "\n system ok \n");
    assert_eq!(app.sui_active_env, "testnet");
    assert_eq!(app.sui_active_address, "0xabc");
    assert_eq!(app.walrus_system_info, "system ok");
    assert_eq!(app.current_screen, CurrentScreen::Splash);
}
