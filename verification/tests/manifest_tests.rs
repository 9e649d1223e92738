use npmi::manifest::{
    bin_links, extend_path, lookup_script, root_install_plan, transitive_install_plan, Bin,
    PackageJson,
};

fn pairs(v: &[(&str, &str)]) -> Vec<(String, String)> {
    v.iter().map(|(a, b)| (a.to_string(), b.to_string())).collect()
}

fn manifest(
    deps: Option<&[(&str, &str)]>,
    dev: Option<&[(&str, &str)]>,
    optional: Option<&[(&str, &str)]>,
) -> PackageJson {
    PackageJson {
        name: "root".to_string(),
        version: "1.0.0".to_string(),
        scripts: Vec::new(),
        dependencies: deps.map(pairs),
        dev_dependencies: dev.map(pairs),
        optional_dependencies: optional.map(pairs),
        bin: None,
    }
}

#[test]
fn the_root_plan_covers_all_three_classes_in_order() {
    let m = manifest(
        Some(&[("a", "^1.0.0")]),
        Some(&[("d", "^2.0.0")]),
        Some(&[("o", "^3.0.0")]),
    );
    assert_eq!(
        root_install_plan(&m),
        pairs(&[("a", "^1.0.0"), ("d", "^2.0.0"), ("o", "^3.0.0")])
    );
}

#[test]
fn the_transitive_plan_never_holds_dev_dependencies() {
    let m = manifest(
        Some(&[("a", "^1.0.0")]),
        Some(&[("d", "^2.0.0")]),
        Some(&[("o", "^3.0.0")]),
    );
    assert_eq!(transitive_install_plan(&m), pairs(&[("a", "^1.0.0"), ("o", "^3.0.0")]));

    let dev_only = manifest(None, Some(&[("d", "^2.0.0")]), None);
    assert_eq!(transitive_install_plan(&dev_only), pairs(&[]));
    assert_eq!(root_install_plan(&dev_only), pairs(&[("d", "^2.0.0")]));
}

#[test]
fn plans_are_the_same_on_every_run() {
    let m = manifest(Some(&[("a", "^1.0.0"), ("b", "~2.0.0")]), None, Some(&[("o", "*")]));
    let first_root = root_install_plan(&m);
    let first_transitive = transitive_install_plan(&m);
    for _ in 0..5 {
        assert_eq!(root_install_plan(&m), first_root);
        assert_eq!(transitive_install_plan(&m), first_transitive);
    }
}

#[test]
fn a_single_bin_links_under_the_package_name() {
    let links = bin_links("foo", "node_modules/foo", &Bin::Single("./cli.js".to_string()));
    assert_eq!(links, pairs(&[("foo", "node_modules/foo/./cli.js")]));
}

#[test]
fn a_bin_map_links_each_entry() {
    let bin = Bin::Multiple(pairs(&[("a", "./a.js"), ("b", "./b.js")]));
    let links = bin_links("foo", "node_modules/foo", &bin);
    assert_eq!(
        links,
        pairs(&[("a", "node_modules/foo/./a.js"), ("b", "node_modules/foo/./b.js")])
    );
}

#[test]
fn scripts_are_looked_up_by_name() {
    let scripts = pairs(&[("build", "tsc"), ("test", "jest")]);
    assert_eq!(lookup_script(&scripts, "build"), Some("tsc".to_string()));
    assert_eq!(lookup_script(&scripts, "test"), Some("jest".to_string()));
    assert_eq!(lookup_script(&scripts, "missing"), None);
    assert_eq!(lookup_script(&Vec::new(), "build"), None);
}

#[test]
fn the_search_path_is_extended_with_the_bin_directory() {
    assert_eq!(extend_path("/usr/bin", "node_modules/.bin"), "/usr/bin:node_modules/.bin");
    assert_eq!(extend_path("", "b"), ":b");
}
