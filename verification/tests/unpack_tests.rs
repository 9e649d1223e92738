use npmi::errors::InstallError;
use npmi::unpack::{entry_action, entry_components, unpack_plan, EntryAction};

fn parts(v: &[&str]) -> Vec<String> {
    v.iter().map(|s| s.to_string()).collect()
}

#[test]
fn stripping_removes_exactly_the_top_level_wrapper() {
    assert_eq!(
        entry_action("pkg/package.json"),
        EntryAction::Materialize(parts(&["package.json"]))
    );
    assert_eq!(
        entry_action("pkg/lib/index.js"),
        EntryAction::Materialize(parts(&["lib", "index.js"]))
    );
}

#[test]
fn the_wrapper_itself_is_skipped() {
    assert_eq!(entry_action("pkg"), EntryAction::Skip);
    assert_eq!(entry_action("pkg/"), EntryAction::Skip);
    assert_eq!(entry_action(""), EntryAction::Skip);
    assert_eq!(entry_action("./pkg"), EntryAction::Skip);
}

#[test]
fn traversal_entries_are_rejected() {
    assert_eq!(entry_action("pkg/../../evil"), EntryAction::Reject);
    assert_eq!(entry_action("pkg/a/../../../evil"), EntryAction::Reject);
    assert_eq!(entry_action("pkg/.."), EntryAction::Reject);
}

#[test]
fn dot_components_and_doubled_slashes_are_dropped() {
    assert_eq!(
        entry_action("pkg/./lib//x.js"),
        EntryAction::Materialize(parts(&["lib", "x.js"]))
    );
}

#[test]
fn absolute_paths_cannot_escape() {
    // the leading empty component is dropped and the first real component
    // is stripped as the wrapper, so what remains stays under the
    // destination
    assert_eq!(entry_action("/etc/passwd"), EntryAction::Materialize(parts(&["passwd"])));
    assert_eq!(entry_action("/etc"), EntryAction::Skip);
}

#[test]
fn entry_components_split_and_clean() {
    let c = entry_components("a/./b//c/");
    assert_eq!(c, parts(&["a", "b", "c"]));
}

#[test]
fn unpack_plan_collects_safe_entries_in_order() {
    let entries = parts(&["pkg", "pkg/package.json", "pkg/lib/index.js"]);
    let plan = unpack_plan(&entries).unwrap();
    assert_eq!(plan, vec![parts(&["package.json"]), parts(&["lib", "index.js"])]);
}

#[test]
fn unpack_plan_rejects_a_traversal_entry_wherever_it_stands() {
    let early = parts(&["pkg/../../evil", "pkg/a"]);
    let late = parts(&["pkg/a", "pkg/../../evil"]);
    assert_eq!(unpack_plan(&early), Err(InstallError::UnsafeArchivePath));
    assert_eq!(unpack_plan(&late), Err(InstallError::UnsafeArchivePath));
}

#[test]
fn unpack_plan_never_plans_a_parent_component() {
    let entries = parts(&["pkg/a", "pkg/b/./c", "pkg//d"]);
    let plan = unpack_plan(&entries).unwrap();
    for rel in plan {
        assert!(!rel.is_empty());
        for part in rel {
            assert!(!part.is_empty());
            assert_ne!(part, "..");
            assert!(!part.contains('/'));
        }
    }
}
