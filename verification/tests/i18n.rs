use kalk::i18n::Language;

#[test]
fn i18n_test_language_display_names() {
    assert_eq!(Language::English.display_name(), "English");
    assert_eq!(Language::Spanish.display_name(), "Español");
}

#[test]
fn i18n_test_all_languages() {
    let all = Language::all();
    assert_eq!(all.len(), 2);
    assert!(all.contains(&Language::English));
    assert!(all.contains(&Language::Spanish));
}

#[test]
fn i18n_test_language_default_is_english() {
    assert_eq!(Language::default(), Language::English);
}

#[test]
fn mod_test_language_default_is_english() {
    assert_eq!(Language::default(), Language::English);
}

#[test]
fn mod_test_language_display_names() {
    assert_eq!(Language::English.display_name(), "English");
    assert_eq!(Language::Spanish.display_name(), "Español");
}

#[test]
fn hint_labels_never_embed_their_own_key() {
    // The key belongs to the code and the label to the translation. Baking
    // "Enter: Import" into a message makes it unrenderable as [Enter]
    // Import, and lets a translator translate the key by accident.
    for m in [Language::English.messages(), Language::Spanish.messages()] {
        for label in [
            m.import_step1_copy,
            m.import_step1_next,
            m.import_step1_fullscreen,
            m.import_step1_fullscreen_exit,
            m.import_step2_back,
            m.import_step3_save_as_template,
            m.import_step3_confirm,
            m.help_close_hint,
            m.confirm,
            m.cancel,
            m.toggle,
            m.semester_open,
            m.semester_new,
            m.semester_delete,
            m.welcome_next,
            m.welcome_start,
        ] {
            assert!(!label.contains(':'), "`{label}` embeds its key");
            for key in ["Enter", "Esc", "Ctrl", "Tab", "Space"] {
                assert!(!label.starts_with(key), "`{label}` embeds its key");
            }
        }
    }
}

#[test]
fn mod_test_all_languages() {
    let all = Language::all();
    assert_eq!(all.len(), 2);
    assert!(all.contains(&Language::English));
    assert!(all.contains(&Language::Spanish));
}

#[test]
fn languages_cycle_through_each_other() {
    assert_eq!(Language::English.next(), Language::Spanish);
    assert_eq!(Language::Spanish.next(), Language::English);
    assert_eq!(Language::English.previous(), Language::Spanish);
    assert_eq!(Language::Spanish.next().previous(), Language::Spanish);
}

#[test]
fn tables_are_translated() {
    let en = Language::English.messages();
    let es = Language::Spanish.messages();
    assert_eq!(en.semester_name_prefix, "Semester");
    assert_eq!(es.semester_name_prefix, "Semestre");
    assert_eq!(en.courses, "Courses");
    assert_ne!(en.import_prompt, es.import_prompt);
}
