//! Datasets of the Federal Statistical Office (Bundesamt für Statistik,
//! Office fédéral de la statistique, Ufficio federale di statistica).

pub mod archive;
pub mod communes;
pub mod asset;

use vstd::prelude::*;

use crate::tools::message::{
    lemma_last_lookup_absent, lemma_last_lookup_at, last_lookup, Link, Translated,
};

verus! {

/// The editor table names the statistical office in five languages, with
/// English as the default, and nothing else.
pub open spec fn spec_editor(r: Translated<Link<&'static str>>) -> bool {
    &&& r.spec_default_key() == "en"@
    &&& r.spec_get("en"@) matches Some(l) && l.name@ == "Federal Statistical Office"@ && l.url@
        == "https://www.bfs.admin.ch/bfs/en/home.html"@
    &&& r.spec_get("de"@) matches Some(l) && l.name@ == "Bundesamt für Statistik"@ && l.url@
        == "https://www.bfs.admin.ch/bfs/de/home.html"@
    &&& r.spec_get("fr"@) matches Some(l) && l.name@ == "Office fédéral de la statistique"@
        && l.url@ == "https://www.bfs.admin.ch/bfs/fr/home.html"@
    &&& r.spec_get("it"@) matches Some(l) && l.name@ == "Ufficio federale di statistica"@ && l.url@
        == "https://www.bfs.admin.ch/bfs/it/home.html"@
    &&& r.spec_get("rm"@) matches Some(l) && l.name@ == "Uffizi federal da statistica"@ && l.url@
        == "https://www.bfs.admin.ch/bfs/rm/home.html"@
    &&& forall|k: Seq<char>|
        !(k == "en"@ || k == "de"@ || k == "fr"@ || k == "it"@ || k == "rm"@) ==> r.spec_get(
            k,
        ) is None
}

/// The editor of the office's datasets, as a linked name per language.
pub fn editor() -> (r: Translated<Link<&'static str>>)
    ensures
        spec_editor(r),
{
    let mut pairs: Vec<(String, Link<&'static str>)> = Vec::new();
    pairs.push(
        (
            String::from_str("en"),
            Link::from(
                ("Federal Statistical Office", "https://www.bfs.admin.ch/bfs/en/home.html"),
            ),
        ),
    );
    pairs.push(
        (
            String::from_str("de"),
            Link::from(("Bundesamt für Statistik", "https://www.bfs.admin.ch/bfs/de/home.html")),
        ),
    );
    pairs.push(
        (
            String::from_str("fr"),
            Link::from(
                ("Office fédéral de la statistique", "https://www.bfs.admin.ch/bfs/fr/home.html"),
            ),
        ),
    );
    pairs.push(
        (
            String::from_str("it"),
            Link::from(
                ("Ufficio federale di statistica", "https://www.bfs.admin.ch/bfs/it/home.html"),
            ),
        ),
    );
    pairs.push(
        (
            String::from_str("rm"),
            Link::from(
                ("Uffizi federal da statistica", "https://www.bfs.admin.ch/bfs/rm/home.html"),
            ),
        ),
    );
    let ghost ps = pairs@;
    let r = match Translated::from_pairs(pairs) {
        Some(t) => t,
        None => vstd::pervasive::unreached(),
    };
    proof {
        reveal_strlit("en");
        reveal_strlit("de");
        reveal_strlit("fr");
        reveal_strlit("it");
        reveal_strlit("rm");
        assert(("en"@)[0] == 'e');
        assert(("de"@)[0] == 'd');
        assert(("fr"@)[0] == 'f');
        assert(("it"@)[0] == 'i');
        assert(("rm"@)[0] == 'r');
        lemma_last_lookup_at(ps, "en"@, 0);
        lemma_last_lookup_at(ps, "de"@, 1);
        lemma_last_lookup_at(ps, "fr"@, 2);
        lemma_last_lookup_at(ps, "it"@, 3);
        lemma_last_lookup_at(ps, "rm"@, 4);
        assert forall|k: Seq<char>|
            !(k == "en"@ || k == "de"@ || k == "fr"@ || k == "it"@ || k == "rm"@) implies r
            .spec_get(k) is None by {
            lemma_last_lookup_absent(ps, k);
        }
    }
    r
}

/// The copyright table links the office's legal notes in four languages,
/// with English as the default, and nothing else.
pub open spec fn spec_copyright(r: Translated<Link<&'static str>>) -> bool {
    &&& r.spec_default_key() == "en"@
    &&& r.spec_get("en"@) matches Some(l) && l.name@
        == "Federal Statistical Office - Legal framework"@ && l.url@
        == "https://www.bfs.admin.ch/bfs/en/home/fso/swiss-federal-statistical-office/legal-framework.html"@
    &&& r.spec_get("de"@) matches Some(l) && l.name@
        == "Bundesamt für Statistik - Rechtliche Hinweise"@ && l.url@
        == "https://www.bfs.admin.ch/bfs/de/home/bfs/bundesamt-statistik/rechtliche-hinweise.html"@
    &&& r.spec_get("fr"@) matches Some(l) && l.name@
        == "Office fédéral de la statistique - Informations juridiques"@ && l.url@
        == "https://www.bfs.admin.ch/bfs/fr/home/ofs/office-federal-statistique/informations-juridiques.html"@
    &&& r.spec_get("it"@) matches Some(l) && l.name@
        == "Ufficio federale di statistica - Basi legali"@ && l.url@
        == "https://www.bfs.admin.ch/bfs/it/home/ust/ufficio-federale-statistica/basi-legali.html"@
    &&& forall|k: Seq<char>|
        !(k == "en"@ || k == "de"@ || k == "fr"@ || k == "it"@) ==> r.spec_get(k) is None
}

/// Copyright information about the office's datasets.
pub fn copyright() -> (r: Translated<Link<&'static str>>)
    ensures
        spec_copyright(r),
{
    let mut pairs: Vec<(String, Link<&'static str>)> = Vec::new();
    pairs.push(
        (
            String::from_str("en"),
            Link::from(
                (
                    "Federal Statistical Office - Legal framework",
                    "https://www.bfs.admin.ch/bfs/en/home/fso/swiss-federal-statistical-office/legal-framework.html",
                ),
            ),
        ),
    );
    pairs.push(
        (
            String::from_str("de"),
            Link::from(
                (
                    "Bundesamt für Statistik - Rechtliche Hinweise",
                    "https://www.bfs.admin.ch/bfs/de/home/bfs/bundesamt-statistik/rechtliche-hinweise.html",
                ),
            ),
        ),
    );
    pairs.push(
        (
            String::from_str("fr"),
            Link::from(
                (
                    "Office fédéral de la statistique - Informations juridiques",
                    "https://www.bfs.admin.ch/bfs/fr/home/ofs/office-federal-statistique/informations-juridiques.html",
                ),
            ),
        ),
    );
    pairs.push(
        (
            String::from_str("it"),
            Link::from(
                (
                    "Ufficio federale di statistica - Basi legali",
                    "https://www.bfs.admin.ch/bfs/it/home/ust/ufficio-federale-statistica/basi-legali.html",
                ),
            ),
        ),
    );
    let ghost ps = pairs@;
    let r = match Translated::from_pairs(pairs) {
        Some(t) => t,
        None => vstd::pervasive::unreached(),
    };
    proof {
        reveal_strlit("en");
        reveal_strlit("de");
        reveal_strlit("fr");
        reveal_strlit("it");
        assert(("en"@)[0] == 'e');
        assert(("de"@)[0] == 'd');
        assert(("fr"@)[0] == 'f');
        assert(("it"@)[0] == 'i');
        lemma_last_lookup_at(ps, "en"@, 0);
        lemma_last_lookup_at(ps, "de"@, 1);
        lemma_last_lookup_at(ps, "fr"@, 2);
        lemma_last_lookup_at(ps, "it"@, 3);
        assert forall|k: Seq<char>|
            !(k == "en"@ || k == "de"@ || k == "fr"@ || k == "it"@) implies r.spec_get(
            k,
        ) is None by {
            lemma_last_lookup_absent(ps, k);
        }
    }
    r
}

/// The terms table links the office's terms of use in four languages under
/// the given title, with English as the default, and nothing else.
pub open spec fn spec_terms(r: Translated<Link<&'static str>>, title: Seq<char>) -> bool {
    &&& r.spec_default_key() == "en"@
    &&& r.spec_get("en"@) matches Some(l) && l.name@ == title && l.url@
        == "https://www.bfs.admin.ch/bfs/en/home/fso/swiss-federal-statistical-office/terms-of-use.html"@
    &&& r.spec_get("de"@) matches Some(l) && l.name@ == title && l.url@
        == "https://www.bfs.admin.ch/bfs/de/home/bfs/bundesamt-statistik/nutzungsbedingungen.html"@
    &&& r.spec_get("fr"@) matches Some(l) && l.name@ == title && l.url@
        == "https://www.bfs.admin.ch/bfs/fr/home/ofs/office-federal-statistique/conditions-utilisation.html"@
    &&& r.spec_get("it"@) matches Some(l) && l.name@ == title && l.url@
        == "https://www.bfs.admin.ch/bfs/it/home/ust/ufficio-federale-statistica/condizioni-uso.html"@
    &&& forall|k: Seq<char>|
        !(k == "en"@ || k == "de"@ || k == "fr"@ || k == "it"@) ==> r.spec_get(k) is None
}

/// The office's terms of use, linked in four languages under `title`.
pub fn terms(title: &'static str) -> (r: Translated<Link<&'static str>>)
    ensures
        spec_terms(r, title@),
{
    let mut pairs: Vec<(String, Link<&'static str>)> = Vec::new();
    pairs.push(
        (
            String::from_str("en"),
            Link::from(
                (
                    title,
                    "https://www.bfs.admin.ch/bfs/en/home/fso/swiss-federal-statistical-office/terms-of-use.html",
                ),
            ),
        ),
    );
    pairs.push(
        (
            String::from_str("de"),
            Link::from(
                (
                    title,
                    "https://www.bfs.admin.ch/bfs/de/home/bfs/bundesamt-statistik/nutzungsbedingungen.html",
                ),
            ),
        ),
    );
    pairs.push(
        (
            String::from_str("fr"),
            Link::from(
                (
                    title,
                    "https://www.bfs.admin.ch/bfs/fr/home/ofs/office-federal-statistique/conditions-utilisation.html",
                ),
            ),
        ),
    );
    pairs.push(
        (
            String::from_str("it"),
            Link::from(
                (
                    title,
                    "https://www.bfs.admin.ch/bfs/it/home/ust/ufficio-federale-statistica/condizioni-uso.html",
                ),
            ),
        ),
    );
    let ghost ps = pairs@;
    let r = match Translated::from_pairs(pairs) {
        Some(t) => t,
        None => vstd::pervasive::unreached(),
    };
    proof {
        reveal_strlit("en");
        reveal_strlit("de");
        reveal_strlit("fr");
        reveal_strlit("it");
        assert(("en"@)[0] == 'e');
        assert(("de"@)[0] == 'd');
        assert(("fr"@)[0] == 'f');
        assert(("it"@)[0] == 'i');
        lemma_last_lookup_at(ps, "en"@, 0);
        lemma_last_lookup_at(ps, "de"@, 1);
        lemma_last_lookup_at(ps, "fr"@, 2);
        lemma_last_lookup_at(ps, "it"@, 3);
        assert forall|k: Seq<char>|
            !(k == "en"@ || k == "de"@ || k == "fr"@ || k == "it"@) implies r.spec_get(
            k,
        ) is None by {
            lemma_last_lookup_absent(ps, k);
        }
    }
    r
}

} // verus!
