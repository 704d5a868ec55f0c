//! Meta information about a dataset: name, editor, copyright, terms of use
//! and citations.

use vstd::prelude::*;

use crate::tools::message::{Link, Translated};

verus! {

/// Meta information about a dataset.
pub struct Meta<S> {
    /// Dataset name.
    pub name: Translated<S>,
    /// Languages the data itself comes in; `None` when it is language
    /// independent.
    pub lang: Option<Vec<String>>,
    /// Editor of the dataset.
    pub editor: Translated<Link<S>>,
    /// Copyright information about the dataset.
    pub copyright: Translated<Link<S>>,
    /// Terms of use.
    pub terms: Translated<Link<S>>,
    /// Machine-readable summary of the terms of use. Check against the terms
    /// link before relying on it.
    pub terms_automatic: Terms,
    /// Citations for this data.
    pub citations: Translated<Citation>,
}

/// The text `true` or `false`.
pub open spec fn bool_text(b: bool) -> Seq<char> {
    if b {
        "true"@
    } else {
        "false"@
    }
}

/// An optional citation entry's text, `-` when absent.
pub open spec fn opt_citation_text(o: Option<Seq<char>>) -> Seq<char> {
    if o is Some {
        o->0
    } else {
        "-"@
    }
}

/// The localized description that [`Meta::to_l10n_string`] renders.
pub open spec fn spec_l10n(m: Meta<&'static str>, lang: Seq<char>) -> Seq<char> {
    "## "@ + m.name.spec_get_or_default(lang)@ + "\neditor: "@ + m.editor.spec_get_or_default(
        lang,
    ).name@ + "\ncopyright: "@ + m.copyright.spec_get_or_default(lang).name@ + "\nterms: "@
        + m.terms.spec_get_or_default(lang).name@ + "\n       commercial use allowed: "@
        + bool_text(m.terms_automatic.free_commercial_use)
        + "\n       non commercial use allowed: "@ + bool_text(
        m.terms_automatic.free_noncommercial_use,
    ) + "\n       citations mandatory: "@ + bool_text(m.terms_automatic.citation_mandatory)
        + "\ncitations: bibtex "@ + opt_citation_text(
        m.citations.spec_get_or_default(lang).spec_bibtex(),
    ) + "\n           ris "@ + opt_citation_text(m.citations.spec_get_or_default(lang).spec_ris())
        + "\n\n[editor]: "@ + m.editor.spec_get_or_default(lang).url@ + "\n[copyright]: "@
        + m.copyright.spec_get_or_default(lang).url@ + "\n[terms]: "@
        + m.terms.spec_get_or_default(lang).url@
}

impl Meta<&'static str> {
    /// Render the localized description of the dataset for language `lang`,
    /// falling back to each entry's default language.
    pub fn to_l10n_string(&self, lang: &str) -> (r: String)
        ensures
            r@ == spec_l10n(*self, lang@),
    {
        let mut out = String::new();
        out.append("## ");
        out.append(*self.name.get_or_default(lang));
        out.append("\neditor: ");
        out.append(*self.editor.get_or_default(lang).name());
        out.append("\ncopyright: ");
        out.append(*self.copyright.get_or_default(lang).name());
        out.append("\nterms: ");
        out.append(*self.terms.get_or_default(lang).name());
        out.append("\n       commercial use allowed: ");
        out.append(if self.terms_automatic.free_commercial_use {
            "true"
        } else {
            "false"
        });
        out.append("\n       non commercial use allowed: ");
        out.append(if self.terms_automatic.free_noncommercial_use {
            "true"
        } else {
            "false"
        });
        out.append("\n       citations mandatory: ");
        out.append(if self.terms_automatic.citation_mandatory {
            "true"
        } else {
            "false"
        });
        out.append("\ncitations: bibtex ");
        match self.citations.get_or_default(lang).bibtex() {
            Some(s) => out.append(s.as_str()),
            None => out.append("-"),
        }
        out.append("\n           ris ");
        match self.citations.get_or_default(lang).ris() {
            Some(s) => out.append(s.as_str()),
            None => out.append("-"),
        }
        out.append("\n\n[editor]: ");
        out.append(*self.editor.get_or_default(lang).url());
        out.append("\n[copyright]: ");
        out.append(*self.copyright.get_or_default(lang).url());
        out.append("\n[terms]: ");
        out.append(*self.terms.get_or_default(lang).url());
        proof {
            assert(out@ =~= spec_l10n(*self, lang@));
        }
        out
    }
}

/// A citation of the data, as BibTeX and as RIS.
#[derive(Debug)]
pub struct Citation {
    bibtex: Option<String>,
    ris: Option<String>,
}

impl Citation {
    /// The stored BibTeX entry text.
    pub closed spec fn spec_bibtex(self) -> Option<Seq<char>> {
        match self.bibtex {
            Some(s) => Some(s@),
            None => None,
        }
    }

    /// The stored RIS entry text.
    pub closed spec fn spec_ris(self) -> Option<Seq<char>> {
        match self.ris {
            Some(s) => Some(s@),
            None => None,
        }
    }

    /// A citation carrying the given BibTeX and RIS entries.
    pub fn new(bibtex: &str, ris: &str) -> (r: Self)
        ensures
            r.spec_bibtex() == Some(bibtex@),
            r.spec_ris() == Some(ris@),
    {
        Citation { bibtex: Some(bibtex.to_owned()), ris: Some(ris.to_owned()) }
    }

    /// The BibTeX entry to cite the dataset, if known.
    pub fn bibtex(&self) -> (r: Option<String>)
        ensures
            r is Some <==> self.spec_bibtex() is Some,
            r is Some ==> r->0@ == self.spec_bibtex()->0,
    {
        match &self.bibtex {
            Some(s) => Some(s.clone()),
            None => None,
        }
    }

    /// The RIS entry to cite the dataset, if known.
    pub fn ris(&self) -> (r: Option<String>)
        ensures
            r is Some <==> self.spec_ris() is Some,
            r is Some ==> r->0@ == self.spec_ris()->0,
    {
        match &self.ris {
            Some(s) => Some(s.clone()),
            None => None,
        }
    }
}

impl Default for Citation {
    /// A citation with neither entry known.
    fn default() -> (r: Self)
        ensures
            r.spec_bibtex() is None,
            r.spec_ris() is None,
    {
        Citation { bibtex: None, ris: None }
    }
}

/// Summary of the terms of use of the data.
#[derive(Debug, Copy, Clone)]
pub struct Terms {
    /// The data is royalty free for commercial use.
    pub free_commercial_use: bool,
    /// The data is royalty free for non-commercial use.
    pub free_noncommercial_use: bool,
    /// Citing the source is mandatory when the data is used.
    pub citation_mandatory: bool,
}

} // verus!
