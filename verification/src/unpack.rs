//! Safe planning of archive extraction.
//!
//! Published package archives wrap their content in one top-level
//! directory, which is stripped; any entry whose remaining path contains a
//! parent-directory component is rejected before anything could be
//! written. The decision for one entry path is [`entry_action`]; a whole
//! entry list is planned by [`unpack_plan`]. The driver outside the
//! library materializes entries only as these decisions say.

use vstd::prelude::*;
use vstd::string::*;

use crate::errors::InstallError;

verus! {

/// Splits on `/`, accumulating the current component in `cur`.
pub open spec fn split_acc(s: Seq<char>, cur: Seq<char>) -> Seq<Seq<char>>
    decreases s.len(),
{
    if s.len() == 0 {
        seq![cur]
    } else if s[0] == '/' {
        seq![cur] + split_acc(s.skip(1), Seq::empty())
    } else {
        split_acc(s.skip(1), cur.push(s[0]))
    }
}

/// A component that names something: nonempty and not `.`.
pub open spec fn keep_component(c: Seq<char>) -> bool {
    c.len() > 0 && c != seq!['.']
}

/// Drops empty and `.` components.
pub open spec fn clean(parts: Seq<Seq<char>>) -> Seq<Seq<char>>
    decreases parts.len(),
{
    if parts.len() == 0 {
        Seq::empty()
    } else {
        let rest = clean(parts.skip(1));
        if keep_component(parts[0]) {
            seq![parts[0]] + rest
        } else {
            rest
        }
    }
}

/// The path components of an archive entry path: split on `/`, empty and
/// `.` components dropped.
pub open spec fn components(s: Seq<char>) -> Seq<Seq<char>> {
    clean(split_acc(s, Seq::empty()))
}

/// A parent-directory component.
pub open spec fn is_dotdot(c: Seq<char>) -> bool {
    c == seq!['.', '.']
}

/// An entry is skipped when it is the top-level wrapper itself (or less).
pub open spec fn entry_is_skipped(path: Seq<char>) -> bool {
    components(path).len() <= 1
}

/// An entry escapes the destination when, after the top-level wrapper is
/// stripped, a parent-directory component remains.
pub open spec fn entry_is_unsafe(path: Seq<char>) -> bool {
    !entry_is_skipped(path) && exists|i: int|
        1 <= i < components(path).len() && is_dotdot(components(path)[i])
}

/// The relative path an entry is materialized at: its components with the
/// top-level wrapper stripped.
pub open spec fn rel_path_of(path: Seq<char>) -> Seq<Seq<char>> {
    components(path).skip(1)
}

/// The views of a list of strings.
pub open spec fn strs_view(v: Seq<String>) -> Seq<Seq<char>> {
    Seq::new(v.len(), |i: int| v[i]@)
}

/// What to do with one archive entry.
#[derive(Debug, Clone, PartialEq, Eq)]
pub enum EntryAction {
    /// The entry is the implicit top-level wrapper: nothing is written.
    Skip,
    /// The entry would escape the destination: the unpack must abort and
    /// nothing is written.
    Reject,
    /// The entry is materialized at this relative path under the
    /// destination, one component per element.
    Materialize(Vec<String>),
}

proof fn lemma_split_no_slash(s: Seq<char>, cur: Seq<char>)
    requires
        !cur.contains('/'),
    ensures
        forall|i: int| 0 <= i < split_acc(s, cur).len() ==> !(#[trigger] split_acc(s, cur)[i]).contains('/'),
    decreases s.len(),
{
    if s.len() == 0 {
        assert(split_acc(s, cur)[0] == cur);
    } else if s[0] == '/' {
        lemma_split_no_slash(s.skip(1), Seq::empty());
        let rest = split_acc(s.skip(1), Seq::<char>::empty());
        assert forall|i: int| 0 <= i < split_acc(s, cur).len() implies !(#[trigger] split_acc(
            s,
            cur,
        )[i]).contains('/') by {
            if i == 0 {
                assert(split_acc(s, cur)[0] == cur);
            } else {
                assert(split_acc(s, cur)[i] == rest[i - 1]);
            }
        };
    } else {
        assert forall|k: int| 0 <= k < cur.push(s[0]).len() implies cur.push(s[0])[k] != '/' by {
            if k < cur.len() {
                assert(!cur.contains('/'));
            }
        };
        assert(!cur.push(s[0]).contains('/'));
        lemma_split_no_slash(s.skip(1), cur.push(s[0]));
        let rest = split_acc(s.skip(1), cur.push(s[0]));
        assert forall|i: int| 0 <= i < split_acc(s, cur).len() implies !(#[trigger] split_acc(
            s,
            cur,
        )[i]).contains('/') by {
            assert(split_acc(s, cur) == rest);
            assert(split_acc(s, cur)[i] == rest[i]);
        };
    }
}

proof fn lemma_clean_keeps(parts: Seq<Seq<char>>)
    ensures
        forall|i: int| 0 <= i < clean(parts).len() ==> keep_component(#[trigger] clean(parts)[i])
            && parts.contains(clean(parts)[i]),
    decreases parts.len(),
{
    if parts.len() > 0 {
        lemma_clean_keeps(parts.skip(1));
        assert forall|i: int| 0 <= i < clean(parts).len() implies keep_component(
            #[trigger] clean(parts)[i],
        ) && parts.contains(clean(parts)[i]) by {
            let rest = clean(parts.skip(1));
            if keep_component(parts[0]) && i == 0 {
                assert(parts[0] == clean(parts)[0]);
            } else {
                let j = if keep_component(parts[0]) {
                    i - 1
                } else {
                    i
                };
                assert(clean(parts)[i] == rest[j]);
                assert(parts.skip(1).contains(rest[j]));
                let w = choose|w: int| 0 <= w < parts.skip(1).len() && parts.skip(1)[w] == rest[j];
                assert(parts[w + 1] == rest[j]);
            }
        };
    }
}

/// Every component of an entry path is a single nonempty path segment:
/// no `/` inside, never empty.
pub proof fn lemma_components_are_segments(s: Seq<char>)
    ensures
        forall|i: int| 0 <= i < components(s).len() ==> {
            &&& (#[trigger] components(s)[i]).len() > 0
            &&& !components(s)[i].contains('/')
        },
{
    lemma_split_no_slash(s, Seq::empty());
    lemma_clean_keeps(split_acc(s, Seq::empty()));
    assert forall|i: int| 0 <= i < components(s).len() implies {
        &&& (#[trigger] components(s)[i]).len() > 0
        &&& !components(s)[i].contains('/')
    } by {
        let raw = split_acc(s, Seq::empty());
        assert(raw.contains(components(s)[i]));
        let w = choose|w: int| 0 <= w < raw.len() && raw[w] == components(s)[i];
    };
}

fn split_path(s: &str) -> (r: Vec<String>)
    ensures
        strs_view(r@) == split_acc(s@, Seq::empty()),
{
    let n = s.unicode_len();
    let mut out: Vec<String> = Vec::new();
    let mut start: usize = 0;
    let mut i: usize = 0;
    proof {
        assert(s@.skip(0) =~= s@);
        assert(s@.subrange(0, 0) =~= Seq::<char>::empty());
    }
    while i < n
        invariant
            start <= i <= n,
            n == s@.len(),
            split_acc(s@, Seq::empty()) == strs_view(out@) + split_acc(
                s@.skip(i as int),
                s@.subrange(start as int, i as int),
            ),
        decreases n - i,
    {
        let ghost prev = out@;
        let ghost cur = s@.subrange(start as int, i as int);
        if s.get_char(i) == '/' {
            let part = s.substring_char(start, i);
            out.push(String::from_str(part));
            proof {
                assert(s@.skip(i as int)[0] == s@[i as int]);
                assert(s@.skip(i as int).skip(1) =~= s@.skip(i as int + 1));
                assert(s@.subrange(i as int + 1, i as int + 1) =~= Seq::<char>::empty());
                assert(strs_view(prev).len() == prev.len());
                assert(strs_view(out@) =~= strs_view(prev) + seq![cur]);
                assert(strs_view(out@) + split_acc(s@.skip(i as int + 1), Seq::empty()) =~= (
                strs_view(prev) + (seq![cur] + split_acc(s@.skip(i as int + 1), Seq::empty()))));
            }
            start = i + 1;
        } else {
            proof {
                assert(s@.skip(i as int)[0] == s@[i as int]);
                assert(s@.skip(i as int).skip(1) =~= s@.skip(i as int + 1));
                assert(cur.push(s@[i as int]) =~= s@.subrange(start as int, i as int + 1));
            }
        }
        i += 1;
    }
    let part = s.substring_char(start, n);
    let ghost prev = out@;
    let ghost cur = s@.subrange(start as int, n as int);
    out.push(String::from_str(part));
    proof {
        assert(s@.skip(n as int).len() == 0);
        assert(strs_view(prev).len() == prev.len());
        assert(strs_view(out@) =~= strs_view(prev) + seq![cur]);
    }
    out
}

fn is_dot_str(p: &str) -> (r: bool)
    ensures
        r == (p@ == seq!['.']),
{
    if p.unicode_len() == 1 {
        if p.get_char(0) == '.' {
            proof {
                assert(p@ =~= seq!['.']);
            }
            true
        } else {
            false
        }
    } else {
        false
    }
}

pub(crate) fn is_dotdot_str(p: &str) -> (r: bool)
    ensures
        r == is_dotdot(p@),
{
    if p.unicode_len() == 2 {
        if p.get_char(0) == '.' && p.get_char(1) == '.' {
            proof {
                assert(p@ =~= seq!['.', '.']);
            }
            true
        } else {
            false
        }
    } else {
        false
    }
}

fn clean_parts(parts: Vec<String>) -> (r: Vec<String>)
    ensures
        strs_view(r@) == clean(strs_view(parts@)),
{
    let ghost all = strs_view(parts@);
    let mut out: Vec<String> = Vec::new();
    let mut i: usize = 0;
    proof {
        assert(all.skip(0) =~= all);
    }
    let n = parts.len();
    while i < n
        invariant
            i <= n,
            n == parts@.len(),
            all == strs_view(parts@),
            clean(all) == strs_view(out@) + clean(all.skip(i as int)),
        decreases n - i,
    {
        let ghost prev = out@;
        let p = &parts[i];
        let keeps = !p.as_str().is_empty() && !is_dot_str(p.as_str());
        proof {
            assert(all.skip(i as int)[0] == all[i as int]);
            assert(all[i as int] == parts@[i as int]@);
            assert(keeps == keep_component(all[i as int]));
            assert(all.skip(i as int).skip(1) =~= all.skip(i as int + 1));
        }
        if keeps {
            out.push(p.clone());
            proof {
                assert(strs_view(prev).len() == prev.len());
                assert(strs_view(out@) =~= strs_view(prev) + seq![all[i as int]]);
                assert(strs_view(out@) + clean(all.skip(i as int + 1)) =~= strs_view(prev) + (seq![
                    all[i as int],
                ] + clean(all.skip(i as int + 1))));
            }
        }
        i += 1;
    }
    proof {
        assert(clean(all.skip(n as int)) =~= Seq::<Seq<char>>::empty());
        assert(strs_view(out@) =~= strs_view(out@) + clean(all.skip(n as int)));
    }
    out
}

/// The components of an entry path, as [`components`] states them.
pub fn entry_components(path: &str) -> (r: Vec<String>)
    ensures
        strs_view(r@) == components(path@),
{
    let raw = split_path(path);
    clean_parts(raw)
}

/// Decides one archive entry. An entry of one component or fewer is the
/// top-level wrapper and is skipped. Otherwise the first component is
/// stripped; if a parent-directory component remains the entry is
/// rejected, else it is materialized at the stripped relative path. A
/// materialized path never holds `..`, an empty component, or a component
/// with `/` in it.
pub fn entry_action(path: &str) -> (r: EntryAction)
    ensures
        entry_is_skipped(path@) ==> r is Skip,
        entry_is_unsafe(path@) ==> r is Reject,
        !entry_is_skipped(path@) && !entry_is_unsafe(path@) ==> (r matches EntryAction::Materialize(
            parts,
        ) && strs_view(parts@) == rel_path_of(path@)),
        r matches EntryAction::Materialize(parts) ==> forall|i: int|
            0 <= i < parts@.len() ==> !is_dotdot(#[trigger] parts@[i]@) && parts@[i]@.len() > 0
                && !parts@[i]@.contains('/'),
{
    let comps = entry_components(path);
    if comps.len() <= 1 {
        return EntryAction::Skip;
    }
    let mut rel: Vec<String> = Vec::new();
    let mut i: usize = 1;
    let n = comps.len();
    while i < n
        invariant
            1 <= i <= n,
            n == comps@.len(),
            strs_view(comps@) == components(path@),
            strs_view(rel@) == components(path@).subrange(1, i as int),
            forall|j: int| 1 <= j < i ==> !is_dotdot(#[trigger] components(path@)[j]),
        decreases n - i,
    {
        let ghost prev = rel@;
        if is_dotdot_str(comps[i].as_str()) {
            proof {
                assert(is_dotdot(components(path@)[i as int]));
            }
            return EntryAction::Reject;
        }
        rel.push(comps[i].clone());
        proof {
            assert(strs_view(prev).len() == prev.len());
            assert(strs_view(rel@) =~= components(path@).subrange(1, i as int + 1));
        }
        i += 1;
    }
    proof {
        assert(strs_view(rel@) =~= rel_path_of(path@));
        lemma_components_are_segments(path@);
        assert forall|j: int| 0 <= j < rel@.len() implies !is_dotdot(#[trigger] rel@[j]@)
            && rel@[j]@.len() > 0 && !rel@[j]@.contains('/') by {
            assert(rel@[j]@ == strs_view(rel@)[j]);
            assert(strs_view(rel@)[j] == components(path@)[j + 1]);
        };
    }
    EntryAction::Materialize(rel)
}

/// Plans a whole unpack, entry paths in archive order: the relative paths
/// to materialize, skipped wrappers left out.
pub open spec fn unpack_targets(entries: Seq<Seq<char>>) -> Seq<Seq<Seq<char>>>
    decreases entries.len(),
{
    if entries.len() == 0 {
        Seq::empty()
    } else {
        let rest = unpack_targets(entries.skip(1));
        if entry_is_skipped(entries[0]) {
            rest
        } else {
            seq![rel_path_of(entries[0])] + rest
        }
    }
}

/// The views of a list of component lists.
pub open spec fn plans_view(v: Seq<Vec<String>>) -> Seq<Seq<Seq<char>>> {
    Seq::new(v.len(), |i: int| strs_view(v[i]@))
}

/// Plans the extraction of a whole archive. Fails with
/// `UnsafeArchivePath` exactly when some entry would escape the
/// destination — then nothing is to be written at all; otherwise returns
/// the relative paths to materialize, in archive order.
pub fn unpack_plan(entries: &Vec<String>) -> (r: Result<Vec<Vec<String>>, InstallError>)
    ensures
        r is Ok <==> (forall|i: int|
            0 <= i < entries@.len() ==> !entry_is_unsafe(#[trigger] entries@[i]@)),
        r matches Err(e) ==> e == InstallError::UnsafeArchivePath && exists|i: int|
            0 <= i < entries@.len() && entry_is_unsafe(#[trigger] entries@[i]@),
        r matches Ok(plans) ==> plans_view(plans@) == unpack_targets(strs_view(entries@)),
{
    let ghost all = strs_view(entries@);
    let mut out: Vec<Vec<String>> = Vec::new();
    let mut i: usize = 0;
    proof {
        assert(all.skip(0) =~= all);
    }
    let n = entries.len();
    while i < n
        invariant
            i <= n,
            n == entries@.len(),
            all == strs_view(entries@),
            forall|j: int| 0 <= j < i ==> !entry_is_unsafe(#[trigger] entries@[j]@),
            unpack_targets(all) == plans_view(out@) + unpack_targets(all.skip(i as int)),
        decreases n - i,
    {
        let ghost prev = out@;
        proof {
            assert(all.skip(i as int)[0] == all[i as int]);
            assert(all[i as int] == entries@[i as int]@);
            assert(all.skip(i as int).skip(1) =~= all.skip(i as int + 1));
        }
        match entry_action(entries[i].as_str()) {
            EntryAction::Skip => {},
            EntryAction::Reject => {
                return Err(InstallError::UnsafeArchivePath);
            },
            EntryAction::Materialize(parts) => {
                out.push(parts);
                proof {
                    assert(plans_view(prev).len() == prev.len());
                    assert(plans_view(out@) =~= plans_view(prev) + seq![rel_path_of(all[i as int])]);
                    assert(plans_view(out@) + unpack_targets(all.skip(i as int + 1)) =~= plans_view(
                        prev,
                    ) + (seq![rel_path_of(all[i as int])] + unpack_targets(all.skip(i as int + 1))));
                }
            },
        }
        i += 1;
    }
    proof {
        assert(unpack_targets(all.skip(n as int)) =~= Seq::<Seq<Seq<char>>>::empty());
        assert(plans_view(out@) =~= plans_view(out@) + unpack_targets(all.skip(n as int)));
    }
    Ok(out)
}

} // verus!
