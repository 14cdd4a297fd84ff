use vela::apps::{db_target, string_le, AppDb, AppEntry, FrequencyRow};

fn entry(id: &str, name: &str, frequency: u32) -> AppEntry {
    let mut e = AppEntry::default();
    e.id = id.to_string();
    e.name = name.to_string();
    e.frequency = frequency;
    e
}

#[test]
fn string_le_is_lexicographic() {
    assert!(string_le(&"abc".to_string(), &"abd".to_string()));
    assert!(!string_le(&"abd".to_string(), &"abc".to_string()));
    assert!(string_le(&"".to_string(), &"a".to_string()));
    assert!(!string_le(&"ab".to_string(), &"a".to_string()));
    assert!(string_le(&"a".to_string(), &"ab".to_string()));
    assert!(string_le(&"same".to_string(), &"same".to_string()));
}

#[test]
fn fresh_db_has_uuid_and_no_entries() {
    let db = AppDb::default();
    assert_eq!(db.uuid().len(), 36);
    assert_eq!(db.entries().len(), 0);
    assert_eq!(db.get_apps().len(), 0);
}

#[test]
fn ranking_prefers_frequency_then_name() {
    let mut db = AppDb::default();
    db.setEntries(vec![
        entry("a", "editor", 2),
        entry("b", "browser", 5),
        entry("c", "archiver", 2),
        entry("d", "terminal", 0),
    ]);
    // positions into entries(): browser (5) first, then the tie between
    // archiver and editor by name, terminal last
    assert_eq!(db.get_apps(), vec![1, 2, 0, 3]);
}

#[test]
fn full_ties_keep_entry_order() {
    let mut db = AppDb::default();
    db.setEntries(vec![
        entry("x1", "twin", 3),
        entry("x2", "twin", 3),
        entry("x3", "twin", 3),
    ]);
    assert_eq!(db.get_apps(), vec![0, 1, 2]);
}

#[test]
fn set_entries_same_list_is_noop() {
    let mut db = AppDb::default();
    let changed = db.setEntries(vec![entry("a", "one", 1), entry("b", "two", 2)]);
    assert!(changed);
    let changed = db.setEntries(vec![entry("a", "one", 1), entry("b", "two", 2)]);
    assert!(!changed);
}

#[test]
fn increment_frequency_reranks() {
    let mut db = AppDb::default();
    db.setEntries(vec![entry("a", "editor", 1), entry("b", "browser", 2)]);
    assert_eq!(db.get_apps(), vec![1, 0]);
    // two more launches of the editor put it first
    db.incrementFrequency(&"a".to_string());
    let changed = db.incrementFrequency(&"a".to_string());
    assert!(changed);
    assert_eq!(db.get_apps(), vec![0, 1]);
    assert_eq!(db.entries()[0].frequency, 3);
}

#[test]
fn increment_frequency_unknown_id_changes_nothing() {
    let mut db = AppDb::default();
    db.setEntries(vec![entry("a", "editor", 1)]);
    let changed = db.incrementFrequency(&"zzz".to_string());
    assert!(!changed);
    assert_eq!(db.entries()[0].frequency, 1);
}

#[test]
fn increment_frequency_hits_first_match_only() {
    let mut db = AppDb::default();
    db.setEntries(vec![entry("dup", "one", 0), entry("dup", "two", 0)]);
    db.incrementFrequency(&"dup".to_string());
    assert_eq!(db.entries()[0].frequency, 1);
    assert_eq!(db.entries()[1].frequency, 0);
}

#[test]
fn stored_frequencies_are_applied() {
    let mut db = AppDb::default();
    db.setEntries(vec![
        entry("a", "editor", 0),
        entry("b", "browser", 0),
        entry("c", "terminal", 0),
    ]);
    let rows = vec![
        FrequencyRow {
            id: "b".to_string(),
            frequency: 9,
        },
        FrequencyRow {
            id: "c".to_string(),
            frequency: 4,
        },
    ];
    let changed = db.update_app_frequencies(&rows);
    assert!(changed);
    assert_eq!(db.entries()[0].frequency, 0);
    assert_eq!(db.entries()[1].frequency, 9);
    assert_eq!(db.entries()[2].frequency, 4);
    assert_eq!(db.get_apps(), vec![1, 2, 0]);
}

#[test]
fn rescale_dim_clamps_and_defaults() {
    let u = vela::cutils::CUtils::default();
    assert_eq!(u.rescale_dim(None), 128);
    assert_eq!(u.rescale_dim(Some(64)), 64);
    assert_eq!(u.rescale_dim(Some(0)), 1);
    assert_eq!(u.rescale_dim(Some(-5)), 1);
}

#[test]
fn dominant_color_of_uniform_red_pixels() {
    let u = vela::cutils::CUtils::default();
    // 100 pixels of a strong red: the quantized palette's first color
    // must land in the red corner
    let mut rgb: Vec<u8> = Vec::new();
    for _ in 0..100 {
        rgb.extend_from_slice(&[200, 10, 10]);
    }
    let (r, g, b) = u.dominant_color(&rgb);
    assert!(r > 150);
    assert!(g < 60);
    assert!(b < 60);
}

#[test]
fn dominant_color_of_no_pixels() {
    let u = vela::cutils::CUtils::default();
    // with no pixels the quantizer still answers: an empty color box,
    // whose average sits at the top of the range
    let rgb: Vec<u8> = Vec::new();
    assert_eq!(u.dominant_color(&rgb), (255, 255, 255));
}

#[test]
fn to_local_file_strips_file_scheme() {
    let u = vela::cutils::CUtils::default();
    assert_eq!(u.to_local_file("file:///home/user/a.png"), "/home/user/a.png");
    assert_eq!(u.to_local_file("/already/local"), "/already/local");
    assert_eq!(u.to_local_file("http://example"), "http://example");
    assert_eq!(u.to_local_file("file:"), "file:");
    assert_eq!(u.to_local_file("file://"), "");
}

#[test]
fn db_target_defaults_to_memory() {
    assert_eq!(db_target(""), ":memory:");
    assert_eq!(db_target("/tmp/apps.db"), "/tmp/apps.db");
}
