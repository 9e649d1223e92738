//! The package manifest: what a package declares about itself.

use vstd::prelude::*;
use vstd::string::*;

use crate::strutil::str_eq;

verus! {

/// The executable declaration of a package: either one path, linked under
/// the package's own name, or a map of link names to paths.
pub enum Bin {
    Single(String),
    Multiple(Vec<(String, String)>),
}

/// A package manifest: name, version, scripts, the three dependency
/// classes, and optional executable declarations. Dependency maps are kept
/// as lists of (name, range) pairs in declaration order.
pub struct PackageJson {
    pub name: String,
    pub version: String,
    pub scripts: Vec<(String, String)>,
    pub dependencies: Option<Vec<(String, String)>>,
    pub dev_dependencies: Option<Vec<(String, String)>>,
    pub optional_dependencies: Option<Vec<(String, String)>>,
    pub bin: Option<Bin>,
}

/// The views of a list of string pairs.
pub open spec fn pairs_view(v: Seq<(String, String)>) -> Seq<(Seq<char>, Seq<char>)> {
    Seq::new(v.len(), |i: int| (v[i].0@, v[i].1@))
}

/// The views of an optional dependency list; absence is an empty list.
pub open spec fn deps_view(d: Option<Vec<(String, String)>>) -> Seq<(Seq<char>, Seq<char>)> {
    match d {
        Some(v) => pairs_view(v@),
        None => Seq::empty(),
    }
}

impl PackageJson {
    /// What is installed for the root manifest: regular, dev and optional
    /// dependencies, in that order. Dev dependencies appear here and only
    /// here.
    pub open spec fn root_plan(self) -> Seq<(Seq<char>, Seq<char>)> {
        deps_view(self.dependencies) + deps_view(self.dev_dependencies) + deps_view(
            self.optional_dependencies,
        )
    }

    /// What is installed for an unpacked transitive package: regular and
    /// optional dependencies only — never its dev dependencies.
    pub open spec fn transitive_plan(self) -> Seq<(Seq<char>, Seq<char>)> {
        deps_view(self.dependencies) + deps_view(self.optional_dependencies)
    }
}

/// Viewing distributes over concatenation of pair lists.
pub proof fn lemma_pairs_view_concat(a: Seq<(String, String)>, b: Seq<(String, String)>)
    ensures
        pairs_view(a + b) == pairs_view(a) + pairs_view(b),
{
    assert(pairs_view(a).len() == a.len());
    assert(pairs_view(b).len() == b.len());
    assert(pairs_view(a + b) =~= pairs_view(a) + pairs_view(b));
}

/// Viewing distributes over appending one pair.
pub proof fn lemma_pairs_view_push(v: Seq<(String, String)>, x: (String, String))
    ensures
        pairs_view(v.push(x)) == pairs_view(v).push((x.0@, x.1@)),
{
    assert(pairs_view(v).len() == v.len());
    assert(pairs_view(v.push(x)) =~= pairs_view(v).push((x.0@, x.1@)));
}

/// Dev dependencies take no part below the root: two manifests that agree
/// on their regular and optional dependencies plan the same transitive
/// installs, whatever their dev dependencies say.
pub proof fn lemma_transitive_plan_ignores_dev(a: PackageJson, b: PackageJson)
    requires
        a.dependencies == b.dependencies,
        a.optional_dependencies == b.optional_dependencies,
    ensures
        a.transitive_plan() == b.transitive_plan(),
{
}

fn push_pairs(dst: &mut Vec<(String, String)>, src: &Option<Vec<(String, String)>>)
    ensures
        pairs_view(final(dst)@) == pairs_view(old(dst)@) + deps_view(*src),
{
    match src {
        None => {
            proof {
                assert(pairs_view(dst@) =~= pairs_view(dst@) + Seq::<(Seq<char>, Seq<char>)>::empty());
            }
        },
        Some(v) => {
            let ghost base = pairs_view(dst@);
            let mut i: usize = 0;
            while i < v.len()
                invariant
                    i <= v@.len(),
                    pairs_view(dst@) == base + pairs_view(v@).take(i as int),
                decreases v@.len() - i,
            {
                let ghost prev = dst@;
                let name = v[i].0.clone();
                let range = v[i].1.clone();
                dst.push((name, range));
                proof {
                    let lhs = pairs_view(dst@);
                    let rhs = base + pairs_view(v@).take(i as int + 1);
                    assert(pairs_view(prev).len() == prev.len());
                    assert(pairs_view(v@).take(i as int).len() == i);
                    assert(pairs_view(v@).take(i as int + 1).len() == i + 1);
                    assert forall|j: int| 0 <= j < lhs.len() implies lhs[j] == rhs[j] by {
                        assert(dst@[j] == prev.push((name, range))[j]);
                        if j < prev.len() {
                            assert(pairs_view(prev)[j] == (base + pairs_view(v@).take(i as int))[j]);
                            assert(lhs[j] == pairs_view(prev)[j]);
                        } else {
                            assert(dst@[j] == (name, range));
                            assert(rhs[j] == pairs_view(v@).take(i as int + 1)[i as int]);
                        }
                    };
                    assert(lhs =~= rhs);
                }
                i += 1;
            }
            proof {
                assert(pairs_view(v@).take(v@.len() as int) =~= pairs_view(v@));
            }
        },
    }
}

/// The install plan of the root manifest: one (name, range) entry per
/// dependency across all three classes, dev dependencies included.
pub fn root_install_plan(p: &PackageJson) -> (r: Vec<(String, String)>)
    ensures
        pairs_view(r@) == p.root_plan(),
{
    let mut out: Vec<(String, String)> = Vec::new();
    proof {
        assert(pairs_view(out@) =~= Seq::<(Seq<char>, Seq<char>)>::empty());
    }
    push_pairs(&mut out, &p.dependencies);
    push_pairs(&mut out, &p.dev_dependencies);
    push_pairs(&mut out, &p.optional_dependencies);
    proof {
        assert(pairs_view(out@) =~= p.root_plan());
    }
    out
}

/// The install plan of an unpacked transitive package: its regular and
/// optional dependencies; its dev dependencies are never followed.
pub fn transitive_install_plan(p: &PackageJson) -> (r: Vec<(String, String)>)
    ensures
        pairs_view(r@) == p.transitive_plan(),
{
    let mut out: Vec<(String, String)> = Vec::new();
    proof {
        assert(pairs_view(out@) =~= Seq::<(Seq<char>, Seq<char>)>::empty());
    }
    push_pairs(&mut out, &p.dependencies);
    push_pairs(&mut out, &p.optional_dependencies);
    proof {
        assert(pairs_view(out@) =~= p.transitive_plan());
    }
    out
}

/// The symlinks a bin declaration asks for: (link name, target path)
/// pairs. A single path is linked under the package's own name; a map is
/// linked entry by entry. Targets live under the package's module
/// directory.
pub open spec fn bin_links_plan(pkg_name: Seq<char>, module_dir: Seq<char>, bin: Bin) -> Seq<
    (Seq<char>, Seq<char>),
> {
    match bin {
        Bin::Single(p) => seq![(pkg_name, module_dir + "/"@ + p@)],
        Bin::Multiple(m) => Seq::new(m@.len(), |i: int| (m@[i].0@, module_dir + "/"@ + m@[i].1@)),
    }
}

fn join_under(module_dir: &str, rel: &str) -> (r: String)
    ensures
        r@ == module_dir@ + "/"@ + rel@,
{
    let s = String::from_str(module_dir);
    let s = s.concat("/");
    s.concat(rel)
}

/// Computes the symlinks for a bin declaration, as [`bin_links_plan`]
/// states them.
pub fn bin_links(pkg_name: &str, module_dir: &str, bin: &Bin) -> (r: Vec<(String, String)>)
    ensures
        pairs_view(r@) == bin_links_plan(pkg_name@, module_dir@, *bin),
{
    let mut out: Vec<(String, String)> = Vec::new();
    match bin {
        Bin::Single(p) => {
            let link = String::from_str(pkg_name);
            out.push((link, join_under(module_dir, p.as_str())));
            proof {
                assert(pairs_view(out@) =~~= bin_links_plan(pkg_name@, module_dir@, *bin));
            }
        },
        Bin::Multiple(m) => {
            let mut i: usize = 0;
            while i < m.len()
                invariant
                    i <= m@.len(),
                    pairs_view(out@) == bin_links_plan(pkg_name@, module_dir@, Bin::Multiple(*m)).take(
                        i as int,
                    ),
                decreases m@.len() - i,
            {
                let ghost prev = out@;
                let link = m[i].0.clone();
                let target = join_under(module_dir, m[i].1.as_str());
                out.push((link, target));
                proof {
                    let full = bin_links_plan(pkg_name@, module_dir@, Bin::Multiple(*m));
                    assert(pairs_view(prev).len() == prev.len());
                    assert(full.take(i as int).len() == i);
                    assert(full.take(i as int + 1).len() == i + 1);
                    assert(pairs_view(out@) =~~= full.take(i + 1));
                }
                i += 1;
            }
            proof {
                let full = bin_links_plan(pkg_name@, module_dir@, Bin::Multiple(*m));
                assert(full.take(m@.len() as int) =~= full);
            }
        },
    }
    out
}

/// Looks a script up by name: the first entry with that name, if any.
pub fn lookup_script(scripts: &Vec<(String, String)>, name: &str) -> (r: Option<String>)
    ensures
        r is Some <==> exists|i: int| 0 <= i < scripts@.len() && scripts@[i].0@ == name@,
        r matches Some(body) ==> exists|i: int|
            0 <= i < scripts@.len() && scripts@[i].0@ == name@ && scripts@[i].1@ == body@ && (forall|
                j: int,
            |
                0 <= j < i ==> scripts@[j].0@ != name@),
{
    let mut i: usize = 0;
    while i < scripts.len()
        invariant
            i <= scripts@.len(),
            forall|j: int| 0 <= j < i ==> scripts@[j].0@ != name@,
        decreases scripts@.len() - i,
    {
        if str_eq(scripts[i].0.as_str(), name) {
            return Some(scripts[i].1.clone());
        }
        i += 1;
    }
    None
}

/// Extends a search path with the shared bin directory: the current path,
/// a separator, the bin directory.
pub fn extend_path(current: &str, bin_dir: &str) -> (r: String)
    ensures
        r@ == current@ + ":"@ + bin_dir@,
{
    let s = String::from_str(current);
    let s = s.concat(":");
    s.concat(bin_dir)
}

} // verus!
