use swissdata::fso::communes::datastore;
use swissdata::fso::{copyright, editor, terms};
use swissdata::tools::cache::{
    cache_file_name, cache_is_valid, cache_namespace, cache_plan, CacheAction,
    DEFAULT_VALIDITY_SECS,
};
use swissdata::tools::message::Translated;
use swissdata::tools::meta::Citation;

#[test]
fn cache_file_name_percent_encodes_the_url() {
    assert_eq!(
        cache_file_name("https://dam-api.bfs.admin.ch/hub/api/dam/assets/23886071/master"),
        "https%3A%2F%2Fdam-api.bfs.admin.ch%2Fhub%2Fapi%2Fdam%2Fassets%2F23886071%2Fmaster"
    );
    assert_eq!(cache_file_name("a b?c=d&e"), "a%20b%3Fc%3Dd%26e");
    assert_eq!(cache_file_name("AZaz09-._~"), "AZaz09-._~");
}

#[test]
fn cache_namespace_is_stable() {
    assert_eq!(cache_namespace(), "rust-swissdata");
    assert_eq!(DEFAULT_VALIDITY_SECS, 24 * 60 * 60);
}

#[test]
fn cache_validity_window() {
    // Fresh strictly inside the window.
    assert!(cache_is_valid(true, 1000, 100, 1099));
    // Stale exactly at the window's end, and after it.
    assert!(!cache_is_valid(true, 1000, 100, 1100));
    assert!(!cache_is_valid(true, 1000, 100, 2000));
    // Never valid before the file exists.
    assert!(!cache_is_valid(false, 1000, 100, 1001));
    assert!(!cache_is_valid(false, 0, u64::MAX, 0));
    // A window beyond the clock's end never expires.
    assert!(cache_is_valid(true, u64::MAX, u64::MAX, u64::MAX));
}

#[test]
fn cache_plan_refetches_only_stale_files() {
    assert_eq!(cache_plan(true, 1000, 100, 1099), CacheAction::UseCache);
    assert_eq!(cache_plan(true, 1000, 100, 1100), CacheAction::Refresh);
    assert_eq!(cache_plan(false, 1000, 100, 1001), CacheAction::Refresh);
}

#[test]
fn cached_load_repeats_without_fetch() {
    // A fetch at time t leaves a fresh file; a second load of the same URL
    // within the validity window reuses the cache, so no further network
    // request happens.
    let fetched_at: u64 = 5000;
    for now in [fetched_at, fetched_at + 1, fetched_at + DEFAULT_VALIDITY_SECS - 1] {
        assert_eq!(
            cache_plan(true, fetched_at, DEFAULT_VALIDITY_SECS, now),
            CacheAction::UseCache
        );
    }
    assert_eq!(
        cache_plan(true, fetched_at, DEFAULT_VALIDITY_SECS, fetched_at + DEFAULT_VALIDITY_SECS),
        CacheAction::Refresh
    );
}

#[test]
fn translated_lookup_and_default() {
    let table = editor();
    assert_eq!(
        *table.get_or_default("fr").name(),
        "Office fédéral de la statistique"
    );
    // An unknown language falls back to the default language, English.
    assert_eq!(*table.get_or_default("xx").name(), "Federal Statistical Office");
    assert!(table.get("xx").is_none());
    assert_eq!(*table.default().name(), "Federal Statistical Office");
    assert_eq!(
        *table.get("rm").unwrap().url(),
        "https://www.bfs.admin.ch/bfs/rm/home.html"
    );
}

#[test]
fn translated_from_pairs_later_entry_wins() {
    let pairs = vec![
        ("de".to_string(), 1u32),
        ("fr".to_string(), 2),
        ("de".to_string(), 3),
    ];
    let table = Translated::from_pairs(pairs).unwrap();
    assert_eq!(*table.get("de").unwrap(), 3);
    assert_eq!(*table.get("fr").unwrap(), 2);
    assert_eq!(*table.default(), 3);
    assert!(Translated::<u32>::from_pairs(Vec::new()).is_none());
}

#[test]
fn copyright_and_terms_tables() {
    let c = copyright();
    assert_eq!(
        *c.get_or_default("it").name(),
        "Ufficio federale di statistica - Basi legali"
    );
    let t = terms("OPEN-BY-ASK");
    assert_eq!(*t.get_or_default("de").name(), "OPEN-BY-ASK");
    assert_eq!(
        *t.get_or_default("de").url(),
        "https://www.bfs.admin.ch/bfs/de/home/bfs/bundesamt-statistik/nutzungsbedingungen.html"
    );
}

#[test]
fn citation_entries() {
    let c = Citation::new("@misc{x}", "TY  - DATA");
    assert_eq!(c.bibtex().unwrap(), "@misc{x}");
    assert_eq!(c.ris().unwrap(), "TY  - DATA");
    let none = Citation::default();
    assert!(none.bibtex().is_none());
    assert!(none.ris().is_none());
}

#[test]
fn meta_describes_the_registry() {
    let meta = datastore().meta();
    assert!(meta.lang.is_none());
    assert!(!meta.terms_automatic.free_commercial_use);
    assert!(meta.terms_automatic.free_noncommercial_use);
    assert!(meta.terms_automatic.citation_mandatory);
    assert_eq!(
        *meta.name.get_or_default("de"),
        "Historisiertes Gemeindeverzeichnis der Schweiz"
    );
    assert_eq!(*meta.terms.get_or_default("en").name(), "OPEN-BY-ASK");
}

#[test]
fn meta_localized_description() {
    let meta = datastore().meta();
    let text = meta.to_l10n_string("en");
    let expected = "## Historisiertes Gemeindeverzeichnis der Schweiz\n\
                    editor: Federal Statistical Office\n\
                    copyright: Federal Statistical Office - Legal framework\n\
                    terms: OPEN-BY-ASK\n       \
                    commercial use allowed: false\n       \
                    non commercial use allowed: true\n       \
                    citations mandatory: true\n\
                    citations: bibtex -\n           \
                    ris -\n\n\
                    [editor]: https://www.bfs.admin.ch/bfs/en/home.html\n\
                    [copyright]: https://www.bfs.admin.ch/bfs/en/home/fso/swiss-federal-statistical-office/legal-framework.html\n\
                    [terms]: https://www.bfs.admin.ch/bfs/en/home/fso/swiss-federal-statistical-office/terms-of-use.html";
    assert_eq!(text, expected);
}
