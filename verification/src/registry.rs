//! Registry metadata and version resolution.

use vstd::prelude::*;

use crate::manifest::Bin;
use crate::semver::{
    lemma_prec_lt_irrefl, lemma_prec_lt_trans, npm_req_is_tag, npm_req_matches, npm_req_parses,
    npm_version_of, npm_version_parses, parse_range, parse_version, prec_lt, semver_lt, SemVer,
    VersionRange,
};
use crate::strutil::str_eq;

verus! {

/// Where one published version's artifact lives and what it must hash to.
pub struct Dist {
    pub tarball: String,
    pub shasum: String,
    pub integrity: Option<String>,
}

/// One published version of a package, as the registry describes it.
pub struct VersionRecord {
    pub name: String,
    pub version: String,
    pub dist: Dist,
    pub dependencies: Option<Vec<(String, String)>>,
    pub dev_dependencies: Option<Vec<(String, String)>>,
    pub optional_dependencies: Option<Vec<(String, String)>>,
    pub bin: Option<Bin>,
}

/// The registry's answer for one package: its dist-tags and its published
/// versions, keyed by the version string exactly as the registry wrote it.
pub struct Metadata {
    pub name: String,
    pub modified: String,
    pub dist_tags: Vec<(String, String)>,
    pub versions: Vec<(String, VersionRecord)>,
}

/// A version key is a candidate for a range when it parses as a version
/// and satisfies the range.
pub open spec fn is_candidate(req: Seq<char>, key: Seq<char>) -> bool {
    npm_version_parses(key) && npm_req_matches(req, key)
}

impl Metadata {
    /// The version keys of this metadata, as character sequences.
    pub open spec fn key_view(self, i: int) -> Seq<char> {
        self.versions@[i].0@
    }

    /// Picks the best key for a parsed range: a candidate key that no
    /// other candidate key precedes. Keys that do not parse as versions
    /// are skipped, not an error. Returns the registry's own key string.
    pub fn best_key(&self, range: &VersionRange) -> (r: Option<String>)
        requires
            !npm_req_is_tag(range.src()),
        ensures
            r is Some <==> exists|i: int|
                0 <= i < self.versions@.len() && is_candidate(range.src(), self.key_view(i)),
            r matches Some(k) ==> is_candidate(range.src(), k@) && (exists|i: int|
                0 <= i < self.versions@.len() && self.key_view(i) == k@) && (forall|j: int|
                0 <= j < self.versions@.len() && is_candidate(range.src(), self.key_view(j))
                    ==> !prec_lt(npm_version_of(k@), npm_version_of(self.key_view(j)))),
    {
        let mut best: Option<(String, SemVer)> = None;
        let mut i: usize = 0;
        while i < self.versions.len()
            invariant
                i <= self.versions@.len(),
                !npm_req_is_tag(range.src()),
                match best {
                    None => forall|j: int|
                        0 <= j < i ==> !is_candidate(range.src(), self.key_view(j)),
                    Some(b) => {
                        &&& is_candidate(range.src(), b.0@)
                        &&& exists|ix: int| 0 <= ix < i && self.key_view(ix) == b.0@
                        &&& b.1.key() == npm_version_of(b.0@)
                        &&& forall|j: int|
                            0 <= j < i && is_candidate(range.src(), self.key_view(j)) ==> !prec_lt(
                                npm_version_of(b.0@),
                                npm_version_of(self.key_view(j)),
                            )
                    },
                },
            decreases self.versions@.len() - i,
        {
            match parse_version(self.versions[i].0.as_str()) {
                Ok(v) => {
                    if crate::semver::matches(range, &v) {
                        let replace = match &best {
                            None => true,
                            Some(b) => semver_lt(&b.1, &v),
                        };
                        if replace {
                            proof {
                                let newk = npm_version_of(self.key_view(i as int));
                                if let Some(b) = best {
                                    let oldk = npm_version_of(b.0@);
                                    assert forall|j: int|
                                        0 <= j < i + 1 && is_candidate(
                                            range.src(),
                                            self.key_view(j),
                                        ) implies !prec_lt(
                                        newk,
                                        npm_version_of(self.key_view(j)),
                                    ) by {
                                        if j == i {
                                            lemma_prec_lt_irrefl(newk);
                                        } else if prec_lt(newk, npm_version_of(self.key_view(j))) {
                                            lemma_prec_lt_trans(
                                                oldk,
                                                newk,
                                                npm_version_of(self.key_view(j)),
                                            );
                                        }
                                    };
                                } else {
                                    lemma_prec_lt_irrefl(newk);
                                }
                            }
                            best = Some((self.versions[i].0.clone(), v));
                        }
                    }
                },
                Err(_) => {},
            }
            i += 1;
        }
        match best {
            Some((k, _)) => Some(k),
            None => None,
        }
    }

    /// Resolves a raw range string against this metadata: parses the range
    /// and picks the best key. `None` when the range does not parse as a
    /// range, or no version satisfies it.
    pub fn _find_best_version(&self, requirement: &str) -> (r: Option<String>)
        ensures
            r is Some <==> npm_req_parses(requirement@) && !npm_req_is_tag(requirement@) && (exists|
                i: int,
            | 0 <= i < self.versions@.len() && is_candidate(requirement@, self.key_view(i))),
            r matches Some(k) ==> is_candidate(requirement@, k@) && (exists|i: int|
                0 <= i < self.versions@.len() && self.key_view(i) == k@) && (forall|j: int|
                0 <= j < self.versions@.len() && is_candidate(requirement@, self.key_view(j))
                    ==> !prec_lt(npm_version_of(k@), npm_version_of(self.key_view(j)))),
    {
        match parse_range(requirement) {
            Ok(range) => self.best_key(&range),
            Err(_) => None,
        }
    }

    /// Finds the record published under a version key: the first entry
    /// with that key, if any.
    pub fn lookup_version<'a>(&'a self, key: &str) -> (r: Option<&'a VersionRecord>)
        ensures
            r is Some <==> exists|i: int|
                0 <= i < self.versions@.len() && self.key_view(i) == key@,
            r matches Some(v) ==> exists|i: int|
                0 <= i < self.versions@.len() && self.key_view(i) == key@ && *v
                    == self.versions@[i].1,
    {
        let mut i: usize = 0;
        while i < self.versions.len()
            invariant
                i <= self.versions@.len(),
                forall|j: int| 0 <= j < i ==> self.key_view(j) != key@,
            decreases self.versions@.len() - i,
        {
            if str_eq(self.versions[i].0.as_str(), key) {
                proof {
                    assert(0 <= i < self.versions@.len() && self.key_view(i as int) == key@);
                }
                return Some(&self.versions[i].1);
            }
            i += 1;
        }
        None
    }
}

} // verus!
