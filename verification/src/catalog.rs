//! Engine profiles: the stored catalog document, its normalisation, and an
//! in-memory catalog that the engine manager reads profiles from.
use vstd::prelude::*;
use crate::model::{opt_string_view, EngineBackend, EngineProfileDto, EngineProfileView};
use crate::text::{lemma_trim_plain, str_eq, trim, trim_str};

pub use crate::preferences::tmp_path;

verus! {

broadcast use vstd::string::group_string_axioms;

/// The id of the profile that every catalog holds.
pub const DEFAULT_ENGINE_PROFILE_ID: &'static str = "default";

#[derive(Debug, PartialEq, Eq)]
pub struct SavedEngineProfile {
    pub profile_id: String,
    pub profile: EngineProfileDto,
}

impl Clone for SavedEngineProfile {
    fn clone(&self) -> (r: Self)
        ensures
            r == *self,
    {
        SavedEngineProfile { profile_id: self.profile_id.clone(), profile: self.profile.clone() }
    }
}

#[derive(Debug, PartialEq, Eq)]
pub struct EngineProfileRecord {
    pub id: String,
    pub profile: EngineProfileDto,
    pub max_visits: u32,
}

impl Clone for EngineProfileRecord {
    fn clone(&self) -> (r: Self)
        ensures
            r == *self,
    {
        EngineProfileRecord {
            id: self.id.clone(),
            profile: self.profile.clone(),
            max_visits: self.max_visits,
        }
    }
}

#[derive(Debug, Clone, PartialEq, Eq)]
pub struct EngineProfilesSettings {
    pub selected_profile_id: String,
    pub autoload_profile_id: Option<String>,
    pub profiles: Vec<EngineProfileRecord>,
}

/// The value of a profile record.
pub struct ProfileRecordView {
    pub id: Seq<char>,
    pub profile: EngineProfileView,
    pub max_visits: u32,
}

impl View for EngineProfileRecord {
    type V = ProfileRecordView;

    open spec fn view(&self) -> ProfileRecordView {
        ProfileRecordView { id: self.id@, profile: self.profile@, max_visits: self.max_visits }
    }
}

/// The value of a catalog document.
pub struct ProfilesSettingsView {
    pub selected_profile_id: Seq<char>,
    pub autoload_profile_id: Option<Seq<char>>,
    pub profiles: Seq<ProfileRecordView>,
}

pub open spec fn records_view(v: Seq<EngineProfileRecord>) -> Seq<ProfileRecordView> {
    v.map_values(|r: EngineProfileRecord| r@)
}

impl View for EngineProfilesSettings {
    type V = ProfilesSettingsView;

    open spec fn view(&self) -> ProfilesSettingsView {
        ProfilesSettingsView {
            selected_profile_id: self.selected_profile_id@,
            autoload_profile_id: match self.autoload_profile_id {
                Some(a) => Some(a@),
                None => None,
            },
            profiles: records_view(self.profiles@),
        }
    }
}

pub open spec fn default_id() -> Seq<char> {
    "default"@
}

/// The built-in local KataGo profile.
pub open spec fn default_record_view() -> ProfileRecordView {
    ProfileRecordView {
        id: default_id(),
        profile: EngineProfileView {
            name: "Local KataGo"@,
            engine_path: Seq::empty(),
            model_path: None,
            config_path: None,
            working_dir: None,
            backend: EngineBackend::KataGoAnalysis,
        },
        max_visits: 800,
    }
}

pub fn default_engine_profile_record() -> (r: EngineProfileRecord)
    ensures
        r@ == default_record_view(),
{
    let r = EngineProfileRecord {
        id: String::from_str(DEFAULT_ENGINE_PROFILE_ID),
        profile: EngineProfileDto {
            name: String::from_str("Local KataGo"),
            engine_path: String::new(),
            model_path: None,
            config_path: None,
            working_dir: None,
            backend: EngineBackend::KataGoAnalysis,
        },
        max_visits: 800,
    };
    assert(r.profile@ == default_record_view().profile);
    r
}

pub fn default_engine_profiles_settings() -> (r: EngineProfilesSettings)
    ensures
        r@ == (ProfilesSettingsView {
            selected_profile_id: default_id(),
            autoload_profile_id: None,
            profiles: seq![default_record_view()],
        }),
{
    let mut profiles: Vec<EngineProfileRecord> = Vec::new();
    profiles.push(default_engine_profile_record());
    let r = EngineProfilesSettings {
        selected_profile_id: String::from_str(DEFAULT_ENGINE_PROFILE_ID),
        autoload_profile_id: None,
        profiles,
    };
    assert(r@.profiles =~= seq![default_record_view()]);
    r
}

/// The catalog that an older single-profile settings document stands for:
/// its one profile under the default id, selected, with no autoload.
pub fn settings_from_legacy(profile: EngineProfileDto, max_visits: u32) -> (r:
    EngineProfilesSettings)
    ensures
        r@ == (ProfilesSettingsView {
            selected_profile_id: default_id(),
            autoload_profile_id: None,
            profiles: seq![ProfileRecordView { id: default_id(), profile: profile@, max_visits }],
        }),
{
    let ghost pv = profile@;
    let mut profiles: Vec<EngineProfileRecord> = Vec::new();
    profiles.push(
        EngineProfileRecord { id: String::from_str(DEFAULT_ENGINE_PROFILE_ID), profile, max_visits },
    );
    let r = EngineProfilesSettings {
        selected_profile_id: String::from_str(DEFAULT_ENGINE_PROFILE_ID),
        autoload_profile_id: None,
        profiles,
    };
    assert(r@.profiles =~= seq![ProfileRecordView { id: default_id(), profile: pv, max_visits }]);
    r
}

/// The records a document is normalised from: its own, or the built-in
/// profile when it has none.
pub open spec fn input_records(recs: Seq<ProfileRecordView>) -> Seq<ProfileRecordView> {
    if recs.len() == 0 {
        seq![default_record_view()]
    } else {
        recs
    }
}

pub open spec fn trimmed_record(r: ProfileRecordView) -> ProfileRecordView {
    ProfileRecordView { id: trim(r.id), ..r }
}

pub open spec fn trimmed_ids(recs: Seq<ProfileRecordView>) -> Seq<Seq<char>> {
    recs.map_values(|r: ProfileRecordView| trim(r.id))
}

pub open spec fn id_required_message() -> Seq<char> {
    "engine profile id is required"@
}

pub open spec fn duplicate_id_message(id: Seq<char>) -> Seq<char> {
    "duplicate engine profile id: "@ + id
}

pub open spec fn max_visits_message() -> Seq<char> {
    "max_visits must be greater than 0"@
}

pub open spec fn name_required_message() -> Seq<char> {
    "engine profile name is required"@
}

/// What is wrong with record `i`, given the records before it: a blank id, an
/// id already used, no visits, or a blank name, checked in that order.
pub open spec fn record_error(recs: Seq<ProfileRecordView>, i: int) -> Option<Seq<char>> {
    let id = trim(recs[i].id);
    if id.len() == 0 {
        Some(id_required_message())
    } else if trimmed_ids(recs).take(i).contains(id) {
        Some(duplicate_id_message(id))
    } else if recs[i].max_visits == 0 {
        Some(max_visits_message())
    } else if trim(recs[i].profile.name).len() == 0 {
        Some(name_required_message())
    } else {
        None
    }
}

/// The error of the first of the first `n` records that has one.
pub open spec fn first_error(recs: Seq<ProfileRecordView>, n: nat) -> Option<Seq<char>>
    decreases n,
{
    if n == 0 {
        None
    } else {
        match first_error(recs, (n - 1) as nat) {
            Some(e) => Some(e),
            None => record_error(recs, n - 1),
        }
    }
}

proof fn lemma_first_error_from(recs: Seq<ProfileRecordView>, k: nat, n: nat)
    requires
        k < n,
        first_error(recs, k) is None,
        record_error(recs, k as int) is Some,
    ensures
        first_error(recs, n) == record_error(recs, k as int),
    decreases n,
{
    if n > k + 1 {
        lemma_first_error_from(recs, k, (n - 1) as nat);
    }
}

/// `trim(id)` when it names a profile of the normalised catalog.
pub open spec fn kept_id(id: Seq<char>, ids: Seq<Seq<char>>) -> bool {
    ids.contains(id) || id == default_id()
}

/// The normalised catalog: records with trimmed ids, the built-in profile
/// first when no record has its id, the selection kept when it names a
/// profile (the built-in one otherwise), and the autoload mark kept only when
/// it names a profile.
pub open spec fn normalize_spec(s: ProfilesSettingsView) -> Result<ProfilesSettingsView, Seq<char>> {
    let recs = input_records(s.profiles);
    match first_error(recs, recs.len()) {
        Some(e) => Err(e),
        None => {
            let ids = trimmed_ids(recs);
            let kept = recs.map_values(|r: ProfileRecordView| trimmed_record(r));
            let selected = trim(s.selected_profile_id);
            Ok(
                ProfilesSettingsView {
                    profiles: if ids.contains(default_id()) {
                        kept
                    } else {
                        seq![default_record_view()] + kept
                    },
                    selected_profile_id: if kept_id(selected, ids) {
                        selected
                    } else {
                        default_id()
                    },
                    autoload_profile_id: match s.autoload_profile_id {
                        None => None,
                        Some(a) => if trim(a).len() == 0 || !kept_id(trim(a), ids) {
                            None
                        } else {
                            Some(trim(a))
                        },
                    },
                },
            )
        },
    }
}

pub open spec fn settings_result_view(r: Result<EngineProfilesSettings, String>) -> Result<
    ProfilesSettingsView,
    Seq<char>,
> {
    match r {
        Ok(s) => Ok(s@),
        Err(e) => Err(e@),
    }
}

pub open spec fn string_views(v: Seq<String>) -> Seq<Seq<char>> {
    v.map_values(|s: String| s@)
}

/// Whether `id` is among `seen`.
fn contains_id(seen: &Vec<String>, id: &String) -> (r: bool)
    ensures
        r == string_views(seen@).contains(id@),
{
    let mut i: usize = 0;
    while i < seen.len()
        invariant
            i <= seen.len(),
            forall|j: int| 0 <= j < i ==> seen@[j]@ != id@,
        decreases seen.len() - i,
    {
        if str_eq(&seen[i], id) {
            assert(string_views(seen@)[i as int] == id@);
            return true;
        }
        i += 1;
    }
    assert(!string_views(seen@).contains(id@)) by {
        if string_views(seen@).contains(id@) {
            let k = choose|k: int|
                0 <= k < seen@.len() && #[trigger] string_views(seen@)[k] == id@;
            assert(seen@[k]@ == id@);
        }
    }
    false
}

fn is_blank(s: &String) -> (r: bool)
    ensures
        r == (trim(s@).len() == 0),
{
    let t = trim_str(s);
    t.as_str().is_empty()
}

/// Whether `id` (trimmed) names a kept profile.
fn kept_id_exec(seen: &Vec<String>, id: &String) -> (r: bool)
    ensures
        r == kept_id(id@, string_views(seen@)),
{
    contains_id(seen, id) || str_eq(id, DEFAULT_ENGINE_PROFILE_ID)
}

pub fn normalize_engine_profiles(settings: EngineProfilesSettings) -> (r: Result<
    EngineProfilesSettings,
    String,
>)
    ensures
        settings_result_view(r) == normalize_spec(settings@),
{
    let EngineProfilesSettings { selected_profile_id, autoload_profile_id, profiles } = settings;
    let mut records = profiles;
    if records.len() == 0 {
        records.push(default_engine_profile_record());
        assert(records_view(records@) =~= seq![default_record_view()]);
    }
    let ghost recs = records_view(records@);
    assert(recs == input_records(records_view(profiles@)));
    let mut seen: Vec<String> = Vec::new();
    let mut normalized: Vec<EngineProfileRecord> = Vec::new();
    let mut i: usize = 0;
    while i < records.len()
        invariant
            i <= records.len(),
            recs == records_view(records@),
            recs == input_records(settings@.profiles),
            first_error(recs, i as nat) is None,
            string_views(seen@) == trimmed_ids(recs).take(i as int),
            records_view(normalized@) == recs.take(i as int).map_values(
                |r: ProfileRecordView| trimmed_record(r),
            ),
        decreases records.len() - i,
    {
        let record = &records[i];
        let id = trim_str(&record.id);
        assert(recs[i as int] == record@);
        if id.as_str().is_empty() {
            proof {
                assert(record_error(recs, i as int) == Some(id_required_message()));
                lemma_first_error_from(recs, i as nat, recs.len());
            }
            return Err(String::from_str("engine profile id is required"));
        }
        if contains_id(&seen, &id) {
            let mut m = String::from_str("duplicate engine profile id: ");
            m.append(id.as_str());
            assert(record_error(recs, i as int) == Some(duplicate_id_message(id@)));
            proof {
                lemma_first_error_from(recs, i as nat, recs.len());
            }
            return Err(m);
        }
        if record.max_visits == 0 {
            assert(record_error(recs, i as int) == Some(max_visits_message()));
            proof {
                lemma_first_error_from(recs, i as nat, recs.len());
            }
            return Err(String::from_str("max_visits must be greater than 0"));
        }
        if is_blank(&record.profile.name) {
            assert(record_error(recs, i as int) == Some(name_required_message()));
            proof {
                lemma_first_error_from(recs, i as nat, recs.len());
            }
            return Err(String::from_str("engine profile name is required"));
        }
        assert(record_error(recs, i as int) is None);
        let kept = EngineProfileRecord {
            id: id.clone(),
            profile: record.profile.clone(),
            max_visits: record.max_visits,
        };
        let ghost old_seen = seen@;
        let ghost old_norm = normalized@;
        let ghost idv = id@;
        assert(recs.len() == records.len());
        assert(trimmed_ids(recs).len() == recs.len());
        assert(string_views(old_seen).len() == old_seen.len());
        assert(old_seen.len() == i);
        assert(records_view(old_norm).len() == old_norm.len());
        assert(old_norm.len() == i);
        assert(kept@ == trimmed_record(recs[i as int]));
        seen.push(id);
        normalized.push(kept);
        assert forall|k: int| 0 <= k < i + 1 implies #[trigger] string_views(seen@)[k]
            == trimmed_ids(recs).take(i + 1)[k] by {
            if k < i {
                assert(seen@[k] == old_seen[k]);
                assert(string_views(old_seen)[k] == trimmed_ids(recs).take(i as int)[k]);
            }
        }
        assert forall|k: int| 0 <= k < i + 1 implies #[trigger] records_view(normalized@)[k]
            == recs.take(i + 1).map_values(|r: ProfileRecordView| trimmed_record(r))[k] by {
            if k < i {
                assert(normalized@[k] == old_norm[k]);
                assert(records_view(old_norm)[k] == recs.take(i as int).map_values(
                    |r: ProfileRecordView| trimmed_record(r),
                )[k]);
            }
        }
        assert(string_views(seen@) =~= trimmed_ids(recs).take(i + 1));
        assert(records_view(normalized@) =~= recs.take(i + 1).map_values(
            |r: ProfileRecordView| trimmed_record(r),
        ));
        i += 1;
    }
    assert(recs.take(records.len() as int) =~= recs);
    assert(trimmed_ids(recs).take(records.len() as int) =~= trimmed_ids(recs));
    let ghost ids = trimmed_ids(recs);
    let has_default = contains_id(&seen, &String::from_str(DEFAULT_ENGINE_PROFILE_ID));
    let profiles = if has_default {
        normalized
    } else {
        let mut with_default: Vec<EngineProfileRecord> = Vec::new();
        with_default.push(default_engine_profile_record());
        let ghost tail = normalized@;
        let mut rest = normalized;
        with_default.append(&mut rest);
        assert(records_view(with_default@) =~= seq![default_record_view()] + records_view(tail));
        with_default
    };
    let selected = trim_str(&selected_profile_id);
    let selected_profile_id = if kept_id_exec(&seen, &selected) {
        selected
    } else {
        String::from_str(DEFAULT_ENGINE_PROFILE_ID)
    };
    let autoload_profile_id = match autoload_profile_id {
        None => None,
        Some(a) => {
            let t = trim_str(&a);
            if t.as_str().is_empty() || !kept_id_exec(&seen, &t) {
                None
            } else {
                Some(t)
            }
        },
    };
    let r = EngineProfilesSettings { selected_profile_id, autoload_profile_id, profiles };
    assert(settings_result_view(Ok(r)) == normalize_spec(settings@));
    Ok(r)
}

/// The user's selection survives normalisation whenever it names one of
/// the stored profiles: a successful normalisation keeps the trimmed
/// selected id; a selection that names neither a stored profile nor the
/// built-in one falls back to the built-in profile.
pub proof fn selection_of_a_stored_profile_is_kept(s: ProfilesSettingsView)
    ensures
        trimmed_ids(s.profiles).contains(trim(s.selected_profile_id)) ==> (normalize_spec(s) matches Ok(
            n,
        ) ==> n.selected_profile_id == trim(s.selected_profile_id)),
        !trimmed_ids(input_records(s.profiles)).contains(trim(s.selected_profile_id)) && trim(
            s.selected_profile_id,
        ) != default_id() ==> (normalize_spec(s) matches Ok(n) ==> n.selected_profile_id
            == default_id()),
{
    if s.profiles.len() > 0 {
        assert(input_records(s.profiles) == s.profiles);
    }
}

pub open spec fn record_ids(p: Seq<ProfileRecordView>) -> Seq<Seq<char>> {
    p.map_values(|r: ProfileRecordView| r.id)
}

/// A catalog document in the shape the engine manager relies on: ids are
/// non-blank, trimmed and distinct, the built-in profile is there, the
/// selection names a profile, and the autoload mark is absent or names one.
pub open spec fn catalog_is_consistent(n: ProfilesSettingsView) -> bool {
    let ids = record_ids(n.profiles);
    &&& forall|i: int| 0 <= i < ids.len() ==> #[trigger] ids[i] == trim(ids[i]) && ids[i].len() > 0
    &&& forall|i: int, j: int| 0 <= i < j < ids.len() ==> #[trigger] ids[i] != #[trigger] ids[j]
    &&& ids.contains(default_id())
    &&& ids.contains(n.selected_profile_id)
    &&& (n.autoload_profile_id matches Some(a) ==> ids.contains(a))
}

proof fn lemma_no_error_before(recs: Seq<ProfileRecordView>, n: nat)
    requires
        first_error(recs, n) is None,
    ensures
        forall|i: int| 0 <= i < n ==> #[trigger] record_error(recs, i) is None,
    decreases n,
{
    if n > 0 {
        lemma_no_error_before(recs, (n - 1) as nat);
    }
}

/// Whatever document normalisation accepts, it gives back a consistent
/// catalog: at most one autoload mark, and never one that dangles.
pub proof fn normalized_catalog_is_consistent(s: ProfilesSettingsView)
    requires
        normalize_spec(s) is Ok,
    ensures
        catalog_is_consistent(normalize_spec(s)->Ok_0),
{
    reveal_strlit("default");
    let recs = input_records(s.profiles);
    lemma_no_error_before(recs, recs.len());
    let ids = trimmed_ids(recs);
    let kept = recs.map_values(|r: ProfileRecordView| trimmed_record(r));
    assert(record_ids(kept) =~= ids);
    assert forall|i: int| 0 <= i < ids.len() implies #[trigger] ids[i] == trim(ids[i])
        && ids[i].len() > 0 by {
        assert(record_error(recs, i) is None);
        crate::text::lemma_trim_idempotent(recs[i].id);
    }
    assert forall|i: int, j: int| 0 <= i < j < ids.len() implies #[trigger] ids[i]
        != #[trigger] ids[j] by {
        assert(record_error(recs, j) is None);
        assert(ids.take(j)[i] == ids[i]);
    }
    let n = normalize_spec(s)->Ok_0;
    let out = record_ids(n.profiles);
    if !ids.contains(default_id()) {
        assert(out =~= seq![default_id()] + ids);
        assert(out[0] == default_id());
        assert(trim(default_id()) == default_id()) by {
            lemma_trim_plain(default_id());
        }
        assert forall|i: int| 0 <= i < out.len() implies #[trigger] out[i] == trim(out[i])
            && out[i].len() > 0 by {
            if i > 0 {
                assert(out[i] == ids[i - 1]);
            }
        }
        assert forall|i: int, j: int| 0 <= i < j < out.len() implies #[trigger] out[i]
            != #[trigger] out[j] by {
            assert(out[j] == ids[j - 1]);
            if i > 0 {
                assert(out[i] == ids[i - 1]);
            }
        }
        assert forall|x: Seq<char>| ids.contains(x) implies out.contains(x) by {
            let k = choose|k: int| 0 <= k < ids.len() && ids[k] == x;
            assert(out[k + 1] == x);
        }
    } else {
        assert(out =~= ids);
    }
}

proof fn lemma_no_error_gives_none(recs: Seq<ProfileRecordView>, n: nat)
    requires
        forall|i: int| 0 <= i < n ==> #[trigger] record_error(recs, i) is None,
    ensures
        first_error(recs, n) is None,
    decreases n,
{
    if n > 0 {
        lemma_no_error_gives_none(recs, (n - 1) as nat);
    }
}

/// Every record of a normalised catalog has visits and a non-blank name.
pub open spec fn records_are_usable(p: Seq<ProfileRecordView>) -> bool {
    forall|i: int|
        0 <= i < p.len() ==> #[trigger] p[i].max_visits > 0 && trim(p[i].profile.name).len() > 0
}

proof fn lemma_normalized_records_usable(s: ProfilesSettingsView)
    requires
        normalize_spec(s) is Ok,
    ensures
        records_are_usable(normalize_spec(s)->Ok_0.profiles),
{
    reveal_strlit("Local KataGo");
    let recs = input_records(s.profiles);
    lemma_no_error_before(recs, recs.len());
    let kept = recs.map_values(|r: ProfileRecordView| trimmed_record(r));
    assert(trim(default_record_view().profile.name).len() > 0) by {
        lemma_trim_plain(default_record_view().profile.name);
    }
    assert forall|i: int| 0 <= i < kept.len() implies #[trigger] kept[i].max_visits > 0 && trim(
        kept[i].profile.name,
    ).len() > 0 by {
        assert(record_error(recs, i) is None);
    }
    let out = normalize_spec(s)->Ok_0.profiles;
    if !trimmed_ids(recs).contains(default_id()) {
        assert forall|i: int| 0 <= i < out.len() implies #[trigger] out[i].max_visits > 0 && trim(
            out[i].profile.name,
        ).len() > 0 by {
            if i > 0 {
                assert(out[i] == kept[i - 1]);
            }
        }
    }
}

/// Normalising a normalised catalog changes nothing.
pub proof fn normalize_engine_profiles_is_idempotent(s: ProfilesSettingsView)
    requires
        normalize_spec(s) is Ok,
    ensures
        normalize_spec(normalize_spec(s)->Ok_0) == normalize_spec(s),
{
    let n = normalize_spec(s)->Ok_0;
    normalized_catalog_is_consistent(s);
    lemma_normalized_records_usable(s);
    let ids = record_ids(n.profiles);
    assert(n.profiles.len() > 0) by {
        let k = choose|k: int| 0 <= k < ids.len() && ids[k] == default_id();
    }
    let recs = input_records(n.profiles);
    assert(recs == n.profiles);
    assert(trimmed_ids(recs) =~= ids);
    assert forall|i: int| 0 <= i < recs.len() implies #[trigger] record_error(recs, i) is None by {
        assert(ids[i] == trim(ids[i]));
        if trimmed_ids(recs).take(i).contains(ids[i]) {
            let k = choose|k: int| 0 <= k < i && trimmed_ids(recs).take(i)[k] == ids[i];
            assert(ids[k] == ids[i]);
        }
    }
    lemma_no_error_gives_none(recs, recs.len());
    let kept = recs.map_values(|r: ProfileRecordView| trimmed_record(r));
    assert(kept =~= recs) by {
        assert forall|i: int| 0 <= i < recs.len() implies #[trigger] kept[i] == recs[i] by {
            assert(ids[i] == trim(ids[i]));
        }
    }
    let sel = n.selected_profile_id;
    let k = choose|k: int| 0 <= k < ids.len() && ids[k] == sel;
    assert(trim(sel) == sel);
    match n.autoload_profile_id {
        Some(a) => {
            let k = choose|k: int| 0 <= k < ids.len() && ids[k] == a;
            assert(trim(a) == a && a.len() > 0);
        },
        None => {},
    }
    assert(normalize_spec(n) == Ok::<ProfilesSettingsView, Seq<char>>(n));
}

/// Reads engine profiles by id; the engine manager starts engines from it.
pub trait EngineProfileCatalog {
    fn get(&self, profile_id: &str) -> Option<SavedEngineProfile>;

    fn autoload_profile_id(&self) -> (r: Option<String>)
        default_ensures
            r is None,
    {
        None
    }
}

/// The contents of a catalog: each profile by its id, and the autoload mark.
pub struct CatalogView {
    pub profiles: Map<Seq<char>, EngineProfileView>,
    pub autoload_profile_id: Option<Seq<char>>,
}

/// The catalog held by `profiles`: later entries win over earlier ones.
pub open spec fn profiles_map(s: Seq<SavedEngineProfile>) -> Map<Seq<char>, EngineProfileView>
    decreases s.len(),
{
    if s.len() == 0 {
        Map::empty()
    } else {
        profiles_map(s.drop_last()).insert(s.last().profile_id@, s.last().profile@)
    }
}

pub open spec fn ids_unique(s: Seq<SavedEngineProfile>) -> bool {
    forall|i: int, j: int|
        0 <= i < j < s.len() ==> #[trigger] s[i].profile_id@ != #[trigger] s[j].profile_id@
}

proof fn lemma_profiles_map_dom(s: Seq<SavedEngineProfile>, k: Seq<char>)
    ensures
        profiles_map(s).dom().contains(k) <==> exists|i: int|
            0 <= i < s.len() && #[trigger] s[i].profile_id@ == k,
    decreases s.len(),
{
    if s.len() > 0 {
        let d = s.drop_last();
        lemma_profiles_map_dom(d, k);
        assert(s[s.len() - 1] == s.last());
        if exists|i: int| 0 <= i < d.len() && #[trigger] d[i].profile_id@ == k {
            let i = choose|i: int| 0 <= i < d.len() && #[trigger] d[i].profile_id@ == k;
            assert(s[i] == d[i]);
        }
        if exists|i: int| 0 <= i < s.len() && #[trigger] s[i].profile_id@ == k {
            let i = choose|i: int| 0 <= i < s.len() && #[trigger] s[i].profile_id@ == k;
            if i < s.len() - 1 {
                assert(d[i] == s[i]);
            }
        }
    }
}

proof fn lemma_profiles_map_at(s: Seq<SavedEngineProfile>, i: int)
    requires
        ids_unique(s),
        0 <= i < s.len(),
    ensures
        profiles_map(s).dom().contains(s[i].profile_id@),
        profiles_map(s)[s[i].profile_id@] == s[i].profile@,
    decreases s.len(),
{
    let d = s.drop_last();
    if i < s.len() - 1 {
        assert(d[i] == s[i]);
        assert(ids_unique(d)) by {
            assert forall|a: int, b: int| 0 <= a < b < d.len() implies #[trigger] d[a].profile_id@
                != #[trigger] d[b].profile_id@ by {
                assert(d[a] == s[a] && d[b] == s[b]);
            }
        }
        lemma_profiles_map_at(d, i);
        assert(s[i].profile_id@ != s[s.len() - 1].profile_id@);
    }
}

proof fn lemma_profiles_map_update(s: Seq<SavedEngineProfile>, i: int, p: SavedEngineProfile)
    requires
        0 <= i < s.len(),
        s[i].profile_id@ == p.profile_id@,
        ids_unique(s),
    ensures
        profiles_map(s.update(i, p)) == profiles_map(s).insert(p.profile_id@, p.profile@),
    decreases s.len(),
{
    let d = s.drop_last();
    let u = s.update(i, p);
    if i == s.len() - 1 {
        assert(u.drop_last() =~= d);
        assert(profiles_map(u) =~= profiles_map(s).insert(p.profile_id@, p.profile@));
    } else {
        assert(u.drop_last() =~= d.update(i, p));
        assert(ids_unique(d)) by {
            assert forall|a: int, b: int| 0 <= a < b < d.len() implies #[trigger] d[a].profile_id@
                != #[trigger] d[b].profile_id@ by {
                assert(d[a] == s[a] && d[b] == s[b]);
            }
        }
        assert(d[i] == s[i]);
        lemma_profiles_map_update(d, i, p);
        assert(s[i].profile_id@ != s[s.len() - 1].profile_id@);
        assert(u.last() == s.last());
        assert(profiles_map(u) =~= profiles_map(s).insert(p.profile_id@, p.profile@));
    }
}

/// A catalog held in memory, keyed by profile id.
pub struct InMemoryEngineProfileCatalog {
    profiles: Vec<SavedEngineProfile>,
    autoload_profile_id: Option<String>,
}

impl View for InMemoryEngineProfileCatalog {
    type V = CatalogView;

    closed spec fn view(&self) -> CatalogView {
        CatalogView {
            profiles: profiles_map(self.profiles@),
            autoload_profile_id: opt_string_view(self.autoload_profile_id),
        }
    }
}

impl InMemoryEngineProfileCatalog {
    #[verifier::type_invariant]
    closed spec fn ids_are_unique(self) -> bool {
        ids_unique(self.profiles@)
    }

    /// An empty catalog with no autoload mark.
    pub fn new() -> (r: Self)
        ensures
            r@.profiles == Map::<Seq<char>, EngineProfileView>::empty(),
            r@.autoload_profile_id is None,
    {
        InMemoryEngineProfileCatalog { profiles: Vec::new(), autoload_profile_id: None }
    }

    fn position(&self, profile_id: &str) -> (r: Option<usize>)
        ensures
            match r {
                Some(i) => i < self.profiles.len() && self.profiles@[i as int].profile_id@
                    == profile_id@,
                None => forall|j: int|
                    0 <= j < self.profiles.len() ==> #[trigger] self.profiles@[j].profile_id@
                        != profile_id@,
            },
    {
        let mut i: usize = 0;
        while i < self.profiles.len()
            invariant
                i <= self.profiles.len(),
                forall|j: int|
                    0 <= j < i ==> #[trigger] self.profiles@[j].profile_id@ != profile_id@,
            decreases self.profiles.len() - i,
        {
            if str_eq(self.profiles[i].profile_id.as_str(), profile_id) {
                return Some(i);
            }
            i += 1;
        }
        None
    }

    /// Adds the profile under its id, replacing one stored under that id.
    pub fn upsert(&mut self, profile: SavedEngineProfile)
        ensures
            final(self)@.profiles == old(self)@.profiles.insert(
                profile.profile_id@,
                profile.profile@,
            ),
            final(self)@.autoload_profile_id == old(self)@.autoload_profile_id,
    {
        proof {
            use_type_invariant(&*self);
        }
        let ghost before = self.profiles@;
        let ghost p = profile;
        let found = self.position(profile.profile_id.as_str());
        let mut profiles: Vec<SavedEngineProfile> = Vec::new();
        std::mem::swap(&mut profiles, &mut self.profiles);
        match found {
            Some(i) => {
                proof {
                    lemma_profiles_map_update(before, i as int, p);
                    assert(ids_unique(before.update(i as int, p))) by {
                        assert forall|a: int, b: int|
                            0 <= a < b < before.len() implies #[trigger] before.update(
                            i as int,
                            p,
                        )[a].profile_id@ != #[trigger] before.update(i as int, p)[b].profile_id@ by {
                            assert(before[a].profile_id@ != before[b].profile_id@);
                        }
                    }
                }
                profiles.set(i, profile);
            },
            None => {
                proof {
                    assert(before.push(p).drop_last() =~= before);
                    assert(ids_unique(before.push(p))) by {
                        assert forall|a: int, b: int|
                            0 <= a < b < before.len() + 1 implies #[trigger] before.push(
                            p,
                        )[a].profile_id@ != #[trigger] before.push(p)[b].profile_id@ by {
                            if b < before.len() {
                                assert(before[a].profile_id@ != before[b].profile_id@);
                            } else {
                                assert(before[a].profile_id@ != p.profile_id@);
                            }
                        }
                    }
                }
                profiles.push(profile);
            },
        }
        self.profiles = profiles;
    }

    /// Sets or clears the autoload mark.
    pub fn set_autoload_profile_id(&mut self, profile_id: Option<String>)
        ensures
            final(self)@.profiles == old(self)@.profiles,
            final(self)@.autoload_profile_id == opt_string_view(profile_id),
    {
        proof {
            use_type_invariant(&*self);
        }
        self.autoload_profile_id = profile_id;
    }
}

impl Default for InMemoryEngineProfileCatalog {
    fn default() -> (r: Self)
        ensures
            r@.profiles == Map::<Seq<char>, EngineProfileView>::empty(),
            r@.autoload_profile_id is None,
    {
        InMemoryEngineProfileCatalog::new()
    }
}

impl EngineProfileCatalog for InMemoryEngineProfileCatalog {
    fn get(&self, profile_id: &str) -> (r: Option<SavedEngineProfile>)
        ensures
            r is Some <==> self@.profiles.dom().contains(profile_id@),
            r matches Some(p) ==> p.profile_id@ == profile_id@ && p.profile@
                == self@.profiles[profile_id@],
    {
        proof {
            use_type_invariant(self);
            lemma_profiles_map_dom(self.profiles@, profile_id@);
        }
        match self.position(profile_id) {
            Some(i) => {
                proof {
                    lemma_profiles_map_at(self.profiles@, i as int);
                }
                Some(self.profiles[i].clone())
            },
            None => None,
        }
    }

    fn autoload_profile_id(&self) -> (r: Option<String>)
        ensures
            match r {
                Some(a) => self@.autoload_profile_id == Some(a@),
                None => self@.autoload_profile_id is None,
            },
    {
        match &self.autoload_profile_id {
            Some(a) => Some(a.clone()),
            None => None,
        }
    }
}

/// What a catalog gives back for an id after that profile was stored: the
/// stored profile, under that id; other ids read as before.
pub proof fn upsert_then_get(
    before: CatalogView,
    after: CatalogView,
    stored: SavedEngineProfile,
    id: Seq<char>,
)
    requires
        after.profiles == before.profiles.insert(stored.profile_id@, stored.profile@),
    ensures
        id == stored.profile_id@ ==> after.profiles.dom().contains(id) && after.profiles[id]
            == stored.profile@,
        id != stored.profile_id@ ==> (after.profiles.dom().contains(id)
            <==> before.profiles.dom().contains(id)) && (before.profiles.dom().contains(id)
            ==> after.profiles[id] == before.profiles[id]),
{
}

} // verus!
