use lizzieyzy_next::save_as::{
    classify_save_as_session, classify_save_as_session_in, persist_save_as, PathStyle,
    SaveAsDialogOutcome,
};
use std::cell::Cell;

#[test]
fn save_as_dialog_redirect_leaves_path_and_dirty_unchanged() {
    let wrote = Cell::new(false);
    let mut dirty = true;
    let mut native_path = Some("/tmp/branching.sgf".to_string());
    let redirected = "/home/admin/denied.sgf";
    let requested = "/denied-acl/denied.sgf";

    let error = persist_save_as(
        SaveAsDialogOutcome::Redirected {
            requested: requested.to_string(),
            redirected: redirected.to_string(),
        },
        |path| {
            wrote.set(true);
            dirty = false;
            native_path = Some(path);
            Ok(())
        },
    )
    .unwrap_err();

    assert!(error.contains("failed to write"), "{error}");
    assert!(error.contains(requested), "{error}");
    assert!(!wrote.get(), "redirected path must not be written");
    assert!(dirty);
    assert_eq!(native_path.as_deref(), Some("/tmp/branching.sgf"));
}

#[test]
fn save_as_dialog_denied_leaves_path_and_dirty_unchanged() {
    let wrote = Cell::new(false);
    let mut dirty = true;
    let mut native_path = Some("/tmp/branching.sgf".to_string());
    let requested = "/denied-acl/denied.sgf";

    let error = persist_save_as(
        SaveAsDialogOutcome::Denied {
            requested: requested.to_string(),
        },
        |path| {
            wrote.set(true);
            dirty = false;
            native_path = Some(path);
            Ok(())
        },
    )
    .unwrap_err();

    assert!(error.contains("failed to write"), "{error}");
    assert!(error.contains(requested), "{error}");
    assert!(!wrote.get());
    assert!(dirty);
    assert_eq!(native_path.as_deref(), Some("/tmp/branching.sgf"));
}

#[test]
fn save_as_dialog_cancel_leaves_path_and_dirty_unchanged() {
    let wrote = Cell::new(false);
    let mut dirty = true;
    let mut native_path = Some("/tmp/branching.sgf".to_string());

    let result = persist_save_as(SaveAsDialogOutcome::Cancelled, |path| {
        wrote.set(true);
        dirty = false;
        native_path = Some(path);
        Ok(())
    })
    .unwrap();

    assert_eq!(result, None);
    assert!(!wrote.get());
    assert!(dirty);
    assert_eq!(native_path.as_deref(), Some("/tmp/branching.sgf"));
}

#[test]
fn save_as_dialog_chosen_writes_and_clears_dirty() {
    let wrote = Cell::new(false);
    let chosen = "/tmp/allowed.sgf";

    let result = persist_save_as(SaveAsDialogOutcome::Chosen(chosen.to_string()), |path| {
        wrote.set(true);
        assert_eq!(path, chosen);
        Ok("saved")
    })
    .unwrap();

    assert_eq!(result, Some("saved"));
    assert!(wrote.get());
}

#[test]
fn classify_save_as_session_represents_windows_acl_redirect() {
    let outcome = classify_save_as_session(
        Some(String::from(
            r"D:\dev\weiqi\tmp\editable-sgf-08-acl-deny\denied.sgf",
        )),
        Some(String::from(r"C:\Users\admin\denied.sgf")),
    );

    assert_eq!(
        outcome,
        SaveAsDialogOutcome::Redirected {
            requested: String::from(r"D:\dev\weiqi\tmp\editable-sgf-08-acl-deny\denied.sgf"),
            redirected: String::from(r"C:\Users\admin\denied.sgf"),
        }
    );
}

#[test]
fn classify_save_as_session_keeps_cancel_and_allowed_choice() {
    assert_eq!(
        classify_save_as_session(None, None),
        SaveAsDialogOutcome::Cancelled
    );
    assert_eq!(
        classify_save_as_session(Some(String::from(r"D:\denied\denied.sgf")), None),
        SaveAsDialogOutcome::Cancelled
    );
    assert_eq!(
        classify_save_as_session(None, Some(String::from("/tmp/allowed.sgf"))),
        SaveAsDialogOutcome::Chosen(String::from("/tmp/allowed.sgf"))
    );
}

#[test]
fn classify_save_as_session_keeps_later_allowed_choice_after_denied_path() {
    let allowed = String::from(r"D:\dev\weiqi\tmp\editable-workspace-branching.sgf");
    assert_eq!(
        classify_save_as_session(
            Some(String::from(
                r"D:\dev\weiqi\tmp\editable-sgf-08-acl-deny\denied.sgf"
            )),
            Some(allowed.clone()),
        ),
        SaveAsDialogOutcome::Chosen(allowed)
    );
    assert_eq!(
        classify_save_as_session(
            Some(String::from(
                r"D:\dev\weiqi\tmp\editable-sgf-08-acl-deny\denied.sgf"
            )),
            Some(String::from(r"C:\Users\admin\Documents\denied.sgf")),
        ),
        SaveAsDialogOutcome::Redirected {
            requested: String::from(r"D:\dev\weiqi\tmp\editable-sgf-08-acl-deny\denied.sgf"),
            redirected: String::from(r"C:\Users\admin\Documents\denied.sgf"),
        }
    );
    assert_eq!(
        classify_save_as_session(
            Some(String::from(
                r"D:\dev\weiqi\tmp\editable-sgf-08-acl-deny\denied.sgf"
            )),
            Some(String::from(r"C:\Users\admin\Desktop\denied.sgf")),
        ),
        SaveAsDialogOutcome::Redirected {
            requested: String::from(r"D:\dev\weiqi\tmp\editable-sgf-08-acl-deny\denied.sgf"),
            redirected: String::from(r"C:\Users\admin\Desktop\denied.sgf"),
        }
    );
}

#[test]
fn denied_write_failure_names_the_requested_path_exactly() {
    let error = persist_save_as::<_, ()>(
        SaveAsDialogOutcome::Denied { requested: "/x/y.sgf".to_string() },
        |_| Ok(()),
    )
    .unwrap_err();
    assert_eq!(error, "failed to write SGF file /x/y.sgf: access denied");
}

#[test]
fn chosen_write_error_is_passed_through() {
    let result = persist_save_as::<_, ()>(SaveAsDialogOutcome::Chosen("/a.sgf".into()), |_| {
        Err("disk full".to_string())
    });
    assert_eq!(result, Err("disk full".to_string()));
}

#[test]
fn same_path_written_differently_is_the_chosen_path() {
    // Case, surrounding blanks, `.` pieces and doubled separators do not make
    // another file.
    assert_eq!(
        classify_save_as_session(
            Some("/tmp/Game.sgf".to_string()),
            Some("  /tmp//./game.SGF ".to_string()),
        ),
        SaveAsDialogOutcome::Chosen("  /tmp//./game.SGF ".to_string())
    );
}

#[test]
fn redirect_needs_the_same_file_name_and_a_users_folder() {
    assert_eq!(
        classify_save_as_session(
            Some(r"D:\games\a.sgf".to_string()),
            Some(r"C:\Users\admin\b.sgf".to_string()),
        ),
        SaveAsDialogOutcome::Chosen(r"C:\Users\admin\b.sgf".to_string())
    );
    assert_eq!(
        classify_save_as_session(
            Some(r"D:\games\a.sgf".to_string()),
            Some(r"C:\Users\admin\Pictures\a.sgf".to_string()),
        ),
        SaveAsDialogOutcome::Chosen(r"C:\Users\admin\Pictures\a.sgf".to_string())
    );
    assert_eq!(
        classify_save_as_session(
            Some(r"D:\games\a.sgf".to_string()),
            Some("/home/USERS/bob/a.sgf".to_string()),
        ),
        SaveAsDialogOutcome::Redirected {
            requested: r"D:\games\a.sgf".to_string(),
            redirected: "/home/USERS/bob/a.sgf".to_string(),
        }
    );
}

#[test]
fn returning_the_requested_path_chooses_it_and_no_session_is_denied() {
    let requested = r"C:\Protected\game.sgf".to_string();
    assert_eq!(
        classify_save_as_session(Some(requested.clone()), Some(requested.clone())),
        SaveAsDialogOutcome::Chosen(requested.clone())
    );
    assert_eq!(
        classify_save_as_session(Some(requested.clone()), None),
        SaveAsDialogOutcome::Cancelled
    );
    let redirected = r"C:\Users\alice\Documents\game.sgf".to_string();
    assert_eq!(
        classify_save_as_session(Some(requested.clone()), Some(redirected.clone())),
        SaveAsDialogOutcome::Redirected { requested, redirected }
    );
}

#[test]
fn windows_rules_read_two_spellings_of_one_path_as_one_path() {
    let requested = Some(String::from(r"C:\Users\bob\x.sgf"));
    let returned = Some(String::from("c:/users//bob/x.sgf"));
    assert_eq!(
        classify_save_as_session_in(PathStyle::Windows, requested.clone(), returned.clone()),
        SaveAsDialogOutcome::Chosen(String::from("c:/users//bob/x.sgf"))
    );
    assert_eq!(
        classify_save_as_session_in(PathStyle::Unix, requested, returned),
        SaveAsDialogOutcome::Redirected {
            requested: String::from(r"C:\Users\bob\x.sgf"),
            redirected: String::from("c:/users//bob/x.sgf"),
        }
    );
    assert_eq!(
        classify_save_as_session_in(
            PathStyle::Windows,
            Some(String::from(r"\\Server\Share\games\x.sgf")),
            Some(String::from(r"\\server\share\games\.\x.sgf")),
        ),
        SaveAsDialogOutcome::Chosen(String::from(r"\\server\share\games\.\x.sgf"))
    );
    assert_eq!(
        classify_save_as_session_in(
            PathStyle::Windows,
            Some(String::from(r"\\?\C:\Users\bob\x.sgf")),
            Some(String::from(r"\\?\c:\users\bob\x.sgf")),
        ),
        SaveAsDialogOutcome::Chosen(String::from(r"\\?\c:\users\bob\x.sgf"))
    );
    assert_eq!(
        classify_save_as_session_in(
            PathStyle::Windows,
            Some(String::from(r"D:\denied\x.sgf")),
            Some(String::from(r"C:\Users\bob\Documents\x.sgf")),
        ),
        SaveAsDialogOutcome::Redirected {
            requested: String::from(r"D:\denied\x.sgf"),
            redirected: String::from(r"C:\Users\bob\Documents\x.sgf"),
        }
    );
    assert_eq!(
        classify_save_as_session_in(
            PathStyle::Windows,
            Some(String::from(r"C:x.sgf")),
            Some(String::from(r"C:\x.sgf")),
        ),
        SaveAsDialogOutcome::Chosen(String::from(r"C:\x.sgf"))
    );
}
