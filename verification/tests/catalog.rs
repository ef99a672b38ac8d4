use lizzieyzy_next::catalog::{
    default_engine_profile_record, default_engine_profiles_settings, normalize_engine_profiles,
    settings_from_legacy,
    EngineProfileCatalog, EngineProfileRecord, EngineProfilesSettings,
    InMemoryEngineProfileCatalog, SavedEngineProfile, DEFAULT_ENGINE_PROFILE_ID,
};
use lizzieyzy_next::model::{EngineBackend, EngineProfileDto};

fn profile(id: &str, name: &str) -> EngineProfileRecord {
    EngineProfileRecord {
        id: id.to_string(),
        profile: EngineProfileDto {
            name: name.to_string(),
            engine_path: format!("/bin/{id}"),
            model_path: None,
            config_path: None,
            working_dir: None,
            backend: EngineBackend::KataGoAnalysis,
        },
        max_visits: 800,
    }
}

fn settings(
    selected: &str,
    autoload: Option<&str>,
    profiles: Vec<EngineProfileRecord>,
) -> EngineProfilesSettings {
    EngineProfilesSettings {
        selected_profile_id: selected.to_string(),
        autoload_profile_id: autoload.map(str::to_string),
        profiles,
    }
}

#[test]
fn normalize_enforces_zero_or_one_autoload_and_drops_dangling_marks() {
    let parsed = normalize_engine_profiles(settings(
        "alpha",
        Some("missing"),
        vec![profile("default", "Local KataGo"), profile("alpha", "Alpha")],
    ))
    .unwrap();
    assert_eq!(parsed.autoload_profile_id, None);

    let blank = normalize_engine_profiles(settings(
        "default",
        Some("   "),
        vec![profile("default", "Local KataGo")],
    ))
    .unwrap();
    assert_eq!(blank.autoload_profile_id, None);
}

#[test]
fn deleting_inactive_marked_profile_clears_mark_in_the_same_document() {
    let before = normalize_engine_profiles(settings(
        "default",
        Some("alpha"),
        vec![profile("default", "Local KataGo"), profile("alpha", "Alpha")],
    ))
    .unwrap();
    assert_eq!(before.autoload_profile_id.as_deref(), Some("alpha"));

    let after_delete = normalize_engine_profiles(settings(
        "default",
        Some("alpha"),
        vec![profile("default", "Local KataGo")],
    ))
    .unwrap();
    assert_eq!(after_delete.autoload_profile_id, None);
    assert!(after_delete.profiles.iter().all(|record| record.id != "alpha"));
}

#[test]
fn set_replace_and_clear_keep_a_single_autoload_mark() {
    let catalog = settings(
        "default",
        None,
        vec![
            profile("default", "Local KataGo"),
            profile("alpha", "Alpha"),
            profile("beta", "Beta"),
        ],
    );
    assert_eq!(normalize_engine_profiles(catalog.clone()).unwrap().autoload_profile_id, None);
    let marked = normalize_engine_profiles(EngineProfilesSettings {
        autoload_profile_id: Some("alpha".into()),
        ..catalog.clone()
    })
    .unwrap();
    assert_eq!(marked.autoload_profile_id.as_deref(), Some("alpha"));
    let replaced = normalize_engine_profiles(EngineProfilesSettings {
        autoload_profile_id: Some(" beta ".into()),
        ..catalog.clone()
    })
    .unwrap();
    assert_eq!(replaced.autoload_profile_id.as_deref(), Some("beta"));
    assert_eq!(replaced.selected_profile_id, "default");
    assert_eq!(normalize_engine_profiles(replaced.clone()).unwrap(), replaced);
}

#[test]
fn first_use_catalog_is_the_local_katago_profile() {
    let d = default_engine_profiles_settings();
    assert_eq!(d.selected_profile_id, DEFAULT_ENGINE_PROFILE_ID);
    assert_eq!(d.autoload_profile_id, None);
    assert_eq!(d.profiles, vec![default_engine_profile_record()]);
    assert_eq!(d.profiles[0].profile.name, "Local KataGo");
    assert_eq!(d.profiles[0].max_visits, 800);
    assert_eq!(normalize_engine_profiles(d.clone()).unwrap(), d);
}

#[test]
fn legacy_single_profile_migrates_under_the_default_id() {
    let migrated = normalize_engine_profiles(settings(
        DEFAULT_ENGINE_PROFILE_ID,
        None,
        vec![EngineProfileRecord { id: DEFAULT_ENGINE_PROFILE_ID.to_string(), ..profile("x", "Legacy") }],
    ))
    .unwrap();
    assert_eq!(migrated.selected_profile_id, DEFAULT_ENGINE_PROFILE_ID);
    assert_eq!(migrated.profiles.len(), 1);
    assert_eq!(migrated.profiles[0].profile.name, "Legacy");
}

#[test]
fn missing_default_is_put_first_and_unknown_selection_falls_back() {
    let n = normalize_engine_profiles(settings(" gone ", None, vec![profile(" alpha ", "Alpha")])).unwrap();
    assert_eq!(n.profiles.len(), 2);
    assert_eq!(n.profiles[0], default_engine_profile_record());
    assert_eq!(n.profiles[1].id, "alpha");
    assert_eq!(n.selected_profile_id, "default");
    let empty = normalize_engine_profiles(settings("default", None, vec![])).unwrap();
    assert_eq!(empty.profiles, vec![default_engine_profile_record()]);
}

#[test]
fn invalid_records_are_refused_with_their_messages() {
    assert_eq!(
        normalize_engine_profiles(settings("default", None, vec![profile("  ", "Blank")])),
        Err("engine profile id is required".to_string())
    );
    assert_eq!(
        normalize_engine_profiles(settings(
            "default",
            None,
            vec![profile("alpha", "A"), profile(" alpha", "B")]
        )),
        Err("duplicate engine profile id: alpha".to_string())
    );
    assert_eq!(
        normalize_engine_profiles(settings(
            "default",
            None,
            vec![EngineProfileRecord { max_visits: 0, ..profile("alpha", "A") }]
        )),
        Err("max_visits must be greater than 0".to_string())
    );
    assert_eq!(
        normalize_engine_profiles(settings("default", None, vec![profile("alpha", " \t")])),
        Err("engine profile name is required".to_string())
    );
}

#[test]
fn in_memory_catalog_reads_back_what_was_stored() {
    let mut catalog = InMemoryEngineProfileCatalog::new();
    assert_eq!(catalog.get("alpha"), None);
    assert_eq!(catalog.autoload_profile_id(), None);
    let alpha = SavedEngineProfile { profile_id: "alpha".into(), profile: profile("alpha", "Alpha").profile };
    catalog.upsert(alpha.clone());
    assert_eq!(catalog.get("alpha"), Some(alpha.clone()));
    assert_eq!(catalog.get("beta"), None);
    let renamed = SavedEngineProfile { profile_id: "alpha".into(), profile: profile("alpha", "Alpha 2").profile };
    catalog.upsert(renamed.clone());
    assert_eq!(catalog.get("alpha"), Some(renamed));
    catalog.set_autoload_profile_id(Some("alpha".into()));
    assert_eq!(catalog.autoload_profile_id().as_deref(), Some("alpha"));
    catalog.set_autoload_profile_id(None);
    assert_eq!(catalog.autoload_profile_id(), None);
    let default_catalog = InMemoryEngineProfileCatalog::default();
    assert_eq!(default_catalog.get("alpha"), None);
}

#[test]
fn legacy_single_profile_document_becomes_the_selected_default() {
    let legacy = EngineProfileDto {
        name: "Legacy".to_string(),
        engine_path: "/bin/legacy".to_string(),
        model_path: None,
        config_path: None,
        working_dir: None,
        backend: EngineBackend::KataGoAnalysis,
    };
    let migrated = normalize_engine_profiles(settings_from_legacy(legacy.clone(), 400)).unwrap();
    assert_eq!(migrated.selected_profile_id, DEFAULT_ENGINE_PROFILE_ID);
    assert_eq!(migrated.autoload_profile_id, None);
    assert_eq!(migrated.profiles.len(), 1);
    assert_eq!(migrated.profiles[0].id, DEFAULT_ENGINE_PROFILE_ID);
    assert_eq!(migrated.profiles[0].profile, legacy);
    assert_eq!(migrated.profiles[0].max_visits, 400);
}
