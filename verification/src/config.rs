//! The conversion's settings: vocabularies, and what is redacted.
use crate::document::Tag;
use crate::text::same_text;
use vstd::prelude::*;

verus! {

/// A vocabulary that a coding scheme of the documents names.
#[derive(Clone, Debug, PartialEq, Eq)]
pub struct DicomConfigEntry {
    pub iri: String,
    pub prefix: String,
    pub coding_scheme: String,
}

/// A vocabulary that no coding scheme names.
#[derive(Clone, Debug, PartialEq, Eq)]
pub struct NonDicomConfigEntry {
    pub iri: String,
    pub prefix: String,
}

/// The settings of a conversion.
#[derive(Clone, Debug, PartialEq, Eq)]
pub struct Config {
    pub dicom: Vec<DicomConfigEntry>,
    pub non_dicom: Vec<NonDicomConfigEntry>,
    /// The vocabulary for coding schemes that `dicom` does not list.
    pub fallback: NonDicomConfigEntry,
    /// The meanings of coded concepts whose free text is redacted.
    pub forbidden_code_meanings: Vec<String>,
    /// The attributes whose values are replaced by a placeholder.
    pub forbidden_dicom_tags: Vec<Tag>,
}

impl Config {
    /// The prefix and the identifier of every vocabulary: those of `dicom`
    /// in order, those of `non_dicom` in order, then the fallback.
    pub open spec fn prefix_iri_pairs(&self) -> Seq<(Seq<char>, Seq<char>)> {
        Seq::new(self.dicom@.len(), |i: int| (self.dicom@[i].prefix@, self.dicom@[i].iri@))
            + Seq::new(
            self.non_dicom@.len(),
            |i: int| (self.non_dicom@[i].prefix@, self.non_dicom@[i].iri@),
        ) + seq![(self.fallback.prefix@, self.fallback.iri@)]
    }

    /// Whether the values of the attribute `tag` are replaced by a
    /// placeholder.
    pub open spec fn forbids_tag(&self, tag: Tag) -> bool {
        self.forbidden_dicom_tags@.contains(tag)
    }

    /// Whether `meaning` is the meaning of a coded concept whose free text
    /// is redacted.
    pub open spec fn forbids_meaning(&self, meaning: Seq<char>) -> bool {
        exists|i: int|
            0 <= i < self.forbidden_code_meanings@.len() && (
            #[trigger] self.forbidden_code_meanings@[i])@ == meaning
    }

    /// The index in `dicom` of the first vocabulary that the coding scheme
    /// `scheme` names, looking at the first `n` only.
    pub open spec fn scheme_index(&self, scheme: Seq<char>, n: nat) -> Option<int>
        decreases n,
    {
        if n == 0 {
            None
        } else {
            match self.scheme_index(scheme, (n - 1) as nat) {
                Some(i) => Some(i),
                None => if self.dicom@[n - 1].coding_scheme@ == scheme {
                    Some(n - 1)
                } else {
                    None
                },
            }
        }
    }

    /// The prefix and the identifier of every vocabulary, in the order of
    /// `prefix_iri_pairs`.
    pub fn to_prefix_iri_pairs(&self) -> (r: Vec<(&str, &str)>)
        ensures
            r@.len() == self.prefix_iri_pairs().len(),
            forall|i: int|
                0 <= i < r@.len() ==> (#[trigger] r@[i]).0@ == self.prefix_iri_pairs()[i].0
                    && r@[i].1@ == self.prefix_iri_pairs()[i].1,
    {
        let mut r: Vec<(&str, &str)> = Vec::new();
        let mut i: usize = 0;
        while i < self.dicom.len()
            invariant
                i <= self.dicom.len(),
                r@.len() == i,
                forall|k: int|
                    0 <= k < i ==> (#[trigger] r@[k]).0@ == self.dicom@[k].prefix@ && r@[k].1@
                        == self.dicom@[k].iri@,
            decreases self.dicom.len() - i,
        {
            r.push((self.dicom[i].prefix.as_str(), self.dicom[i].iri.as_str()));
            i += 1;
        }
        let mut j: usize = 0;
        while j < self.non_dicom.len()
            invariant
                j <= self.non_dicom.len(),
                r@.len() == self.dicom.len() + j,
                forall|k: int|
                    0 <= k < self.dicom.len() ==> (#[trigger] r@[k]).0@ == self.dicom@[k].prefix@
                        && r@[k].1@ == self.dicom@[k].iri@,
                forall|k: int|
                    0 <= k < j ==> (#[trigger] r@[self.dicom.len() + k]).0@
                        == self.non_dicom@[k].prefix@ && r@[self.dicom.len() + k].1@
                        == self.non_dicom@[k].iri@,
            decreases self.non_dicom.len() - j,
        {
            r.push((self.non_dicom[j].prefix.as_str(), self.non_dicom[j].iri.as_str()));
            j += 1;
        }
        r.push((self.fallback.prefix.as_str(), self.fallback.iri.as_str()));
        assert forall|i: int| 0 <= i < r@.len() implies (#[trigger] r@[i]).0@
            == self.prefix_iri_pairs()[i].0 && r@[i].1@ == self.prefix_iri_pairs()[i].1 by {
            if i >= self.dicom.len() && i < self.dicom.len() + self.non_dicom.len() {
                let k = i - self.dicom.len();
                assert(r@[self.dicom.len() + k].0@ == self.non_dicom@[k].prefix@);
            }
        }
        r
    }

    /// Whether the values of the attribute `tag` are replaced by a
    /// placeholder.
    pub fn is_forbidden_tag(&self, tag: Tag) -> (r: bool)
        ensures
            r == self.forbids_tag(tag),
    {
        let mut i: usize = 0;
        while i < self.forbidden_dicom_tags.len()
            invariant
                i <= self.forbidden_dicom_tags.len(),
                forall|k: int| 0 <= k < i ==> self.forbidden_dicom_tags@[k] != tag,
            decreases self.forbidden_dicom_tags.len() - i,
        {
            if self.forbidden_dicom_tags[i] == tag {
                return true;
            }
            i += 1;
        }
        false
    }

    /// Whether `meaning` is the meaning of a coded concept whose free text
    /// is redacted.
    pub fn is_forbidden_meaning(&self, meaning: &str) -> (r: bool)
        ensures
            r == self.forbids_meaning(meaning@),
    {
        let mut i: usize = 0;
        while i < self.forbidden_code_meanings.len()
            invariant
                i <= self.forbidden_code_meanings.len(),
                forall|k: int| 0 <= k < i ==> self.forbidden_code_meanings@[k]@ != meaning@,
            decreases self.forbidden_code_meanings.len() - i,
        {
            if same_text(self.forbidden_code_meanings[i].as_str(), meaning) {
                return true;
            }
            i += 1;
        }
        false
    }

    /// The first vocabulary that the coding scheme `scheme` names.
    pub fn find_scheme(&self, scheme: &str) -> (r: Option<usize>)
        ensures
            match r {
                Some(i) => self.scheme_index(scheme@, self.dicom@.len()) == Some(i as int) && i
                    < self.dicom@.len(),
                None => self.scheme_index(scheme@, self.dicom@.len()).is_none(),
            },
    {
        let mut i: usize = 0;
        while i < self.dicom.len()
            invariant
                i <= self.dicom.len(),
                self.scheme_index(scheme@, i as nat).is_none(),
            decreases self.dicom.len() - i,
        {
            if same_text(self.dicom[i].coding_scheme.as_str(), scheme) {
                proof {
                    self.scheme_index_stays(scheme@, (i + 1) as nat, self.dicom@.len());
                }
                return Some(i);
            }
            i += 1;
        }
        None
    }

    /// Once a vocabulary is found, looking further finds the same one.
    pub proof fn scheme_index_stays(&self, scheme: Seq<char>, n: nat, m: nat)
        requires
            n <= m,
            self.scheme_index(scheme, n).is_some(),
        ensures
            self.scheme_index(scheme, m) == self.scheme_index(scheme, n),
        decreases m,
    {
        if n < m {
            self.scheme_index_stays(scheme, n, (m - 1) as nat);
        }
    }
}

} // verus!
