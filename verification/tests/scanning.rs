use deps_report::depmap::DependencyMap;
use deps_report::error::ScanError;
use deps_report::go_deps::{GoParser, ManifestFile, ModDirective};
use deps_report::js_deps::{normalize_version, JsParser, PackageFile};
use deps_report::patterns::compile_patterns;
use deps_report::scan::{
    is_hidden, is_manifest_entry, should_descend, WalkEntry, GO_MOD_FILE, PACKAGE_JSON_FILE,
};
use deps_report::types::{DepsEntry, PackageJson};

fn strings(items: &[&str]) -> Vec<String> {
    items.iter().map(|s| s.to_string()).collect()
}

fn file(components: &[&str]) -> WalkEntry {
    WalkEntry {
        is_dir: false,
        components: strings(components),
        path: Some(format!("/root/{}", components.join("/"))),
    }
}

fn pairs(items: &[(&str, &str)]) -> Vec<(String, String)> {
    items.iter().map(|(n, v)| (n.to_string(), v.to_string())).collect()
}

fn package_file(path: &str, document: PackageJson) -> PackageFile {
    PackageFile { path: path.to_string(), document: Some(document) }
}

fn js_parser(skip: Option<Vec<String>>) -> JsParser {
    JsParser::new("proj", Some("/root/proj".to_string()), &None, &skip).unwrap()
}

fn go_parser(exclude: Option<Vec<String>>) -> GoParser {
    GoParser::new("proj", Some("/root/proj".to_string()), &exclude).unwrap()
}

fn version_of(map: &DependencyMap, name: &str) -> Option<String> {
    map.get(&name.to_string()).cloned()
}

#[test]
fn absent_pattern_list_matches_nothing() {
    let set = compile_patterns(&None).unwrap();
    assert_eq!(set.len(), 0);
    assert!(!set.matches_any("anything"));
    assert!(!set.matches_any(""));
}

#[test]
fn patterns_match_anywhere_in_the_text() {
    let set = compile_patterns(&Some(strings(&["node_modules", "^/tmp/"]))).unwrap();
    assert_eq!(set.len(), 2);
    assert!(set.matches_any("/root/a/node_modules/b/package.json"));
    assert!(set.matches_any("/tmp/x"));
    assert!(!set.matches_any("/root/tmp/x"));
}

#[test]
fn one_bad_pattern_fails_the_whole_list() {
    let r = compile_patterns(&Some(strings(&["ok", "(", "fine"])));
    assert!(matches!(r, Err(ScanError::InvalidPattern)));
}

#[test]
fn bad_exclude_pattern_fails_scanner_setup() {
    let r = GoParser::new("proj", Some("/root/proj".to_string()), &Some(strings(&["["])));
    assert!(matches!(r, Err(ScanError::InvalidPattern)));
    let r = JsParser::new("proj", Some("/root/proj".to_string()), &None, &Some(strings(&["*"])));
    assert!(matches!(r, Err(ScanError::InvalidPattern)));
}

#[test]
fn unresolved_directory_is_reported() {
    match GoParser::new("nowhere", None, &None) {
        Err(ScanError::InvalidDirectory(d)) => assert_eq!(d, "nowhere"),
        _ => panic!("expected an invalid directory"),
    }
    match JsParser::new("nowhere", None, &Some(strings(&["("])), &None) {
        Err(ScanError::InvalidDirectory(d)) => assert_eq!(d, "nowhere"),
        _ => panic!("expected an invalid directory"),
    }
}

#[test]
fn scanner_keeps_resolved_root() {
    assert_eq!(go_parser(None).root_path(), "/root/proj");
    assert_eq!(js_parser(None).root_path(), "/root/proj");
}

#[test]
fn hidden_names_start_with_a_dot() {
    assert!(is_hidden(".git"));
    assert!(is_hidden("."));
    assert!(!is_hidden("git"));
    assert!(!is_hidden(""));
    assert!(!is_hidden("a.b"));
    assert!(!should_descend(".cache"));
    assert!(should_descend("src"));
}

#[test]
fn only_the_exact_file_name_is_a_manifest() {
    let none = compile_patterns(&None).unwrap();
    assert!(is_manifest_entry(&file(&["a", "go.mod"]), &none, GO_MOD_FILE));
    assert!(is_manifest_entry(&file(&["package.json"]), &none, PACKAGE_JSON_FILE));
    assert!(!is_manifest_entry(&file(&["a", "go.mod.bak"]), &none, GO_MOD_FILE));
    assert!(!is_manifest_entry(&file(&["a", "go.sum"]), &none, GO_MOD_FILE));
    assert!(!is_manifest_entry(&file(&["a", "Package.json"]), &none, PACKAGE_JSON_FILE));
    assert!(!is_manifest_entry(&file(&["a", "package.json"]), &none, GO_MOD_FILE));
    assert!(!is_manifest_entry(&file(&["a", "xpackage.json"]), &none, PACKAGE_JSON_FILE));
}

#[test]
fn directories_are_never_manifests() {
    let none = compile_patterns(&None).unwrap();
    let dir = WalkEntry {
        is_dir: true,
        components: strings(&["a", "go.mod"]),
        path: Some("/root/a/go.mod".to_string()),
    };
    assert!(!is_manifest_entry(&dir, &none, GO_MOD_FILE));
    let root = WalkEntry { is_dir: false, components: vec![], path: Some("/root".to_string()) };
    assert!(!is_manifest_entry(&root, &none, GO_MOD_FILE));
}

#[test]
fn nothing_below_a_hidden_directory_is_found() {
    let none = compile_patterns(&None).unwrap();
    assert!(!is_manifest_entry(&file(&[".git", "go.mod"]), &none, GO_MOD_FILE));
    assert!(!is_manifest_entry(&file(&["a", ".cache", "b", "package.json"]), &none, PACKAGE_JSON_FILE));
    let some = compile_patterns(&Some(strings(&["vendor"]))).unwrap();
    assert!(!is_manifest_entry(&file(&["a", ".cache", "go.mod"]), &some, GO_MOD_FILE));
    assert!(is_manifest_entry(&file(&["a", "cache", "go.mod"]), &some, GO_MOD_FILE));
}

#[test]
fn excluded_paths_are_skipped() {
    let p = go_parser(Some(strings(&["/vendor/"])));
    assert!(!p.is_valid_go_mod(&file(&["vendor", "x", "go.mod"])));
    assert!(p.is_valid_go_mod(&file(&["vendored", "go.mod"])));
    let mut no_path = file(&["vendor", "x", "go.mod"]);
    no_path.path = None;
    assert!(p.is_valid_go_mod(&no_path));
    let j = js_parser(None);
    assert!(j.is_valid_package_json(&file(&["web", "package.json"])));
    assert!(!j.is_valid_package_json(&file(&["web", "go.mod"])));
}

#[test]
fn leading_caret_is_stripped_once() {
    assert_eq!(normalize_version("^1.2.3"), "1.2.3");
    assert_eq!(normalize_version("1.2.3"), "1.2.3");
    assert_eq!(normalize_version("~1.2.3"), "~1.2.3");
    assert_eq!(normalize_version("^^1"), "^1");
    assert_eq!(normalize_version("^"), "");
    assert_eq!(normalize_version(""), "");
    assert_eq!(normalize_version("1.^2"), "1.^2");
}

#[test]
fn dependencies_lose_the_caret_and_peers_keep_it() {
    let p = js_parser(None);
    let manifest = PackageJson {
        dependencies: Some(pairs(&[("react", "^18.2.0"), ("left-pad", "1.3.0")])),
        peer_dependencies: Some(pairs(&[("vue", "^3.0.0")])),
    };
    let mut deps = DependencyMap::new();
    p.process_dependencies(&manifest, &mut deps);
    assert_eq!(deps.len(), 3);
    assert_eq!(version_of(&deps, "react"), Some("18.2.0".to_string()));
    assert_eq!(version_of(&deps, "left-pad"), Some("1.3.0".to_string()));
    assert_eq!(version_of(&deps, "vue"), Some("^3.0.0".to_string()));
    assert_eq!(version_of(&deps, "angular"), None);
}

#[test]
fn peer_dependencies_alone_are_recorded() {
    let p = js_parser(None);
    let manifest = PackageJson { dependencies: None, peer_dependencies: Some(pairs(&[("vue", "3.0.0")])) };
    let mut deps = DependencyMap::new();
    p.process_dependencies(&manifest, &mut deps);
    assert_eq!(version_of(&deps, "vue"), Some("3.0.0".to_string()));
    let empty = PackageJson { dependencies: None, peer_dependencies: None };
    p.process_dependencies(&empty, &mut deps);
    assert_eq!(deps.len(), 1);
}

#[test]
fn skipped_names_are_neither_created_nor_overwritten() {
    let plain = js_parser(None);
    let skipping = js_parser(Some(strings(&["^@internal/"])));
    assert!(skipping.should_skip_dependency("@internal/core"));
    assert!(!skipping.should_skip_dependency("core"));
    assert!(!plain.should_skip_dependency("@internal/core"));
    let first = PackageJson {
        dependencies: Some(pairs(&[("@internal/core", "1.0.0")])),
        peer_dependencies: None,
    };
    let second = PackageJson {
        dependencies: Some(pairs(&[("@internal/core", "^2.0.0"), ("@internal/ui", "1.0.0"), ("lodash", "^4.17.21")])),
        peer_dependencies: Some(pairs(&[("@internal/peer", "1.0.0")])),
    };
    let mut deps = DependencyMap::new();
    plain.process_dependencies(&first, &mut deps);
    skipping.process_dependencies(&second, &mut deps);
    assert_eq!(deps.len(), 2);
    assert_eq!(version_of(&deps, "@internal/core"), Some("1.0.0".to_string()));
    assert_eq!(version_of(&deps, "@internal/ui"), None);
    assert_eq!(version_of(&deps, "@internal/peer"), None);
    assert_eq!(version_of(&deps, "lodash"), Some("4.17.21".to_string()));
}

#[test]
fn later_package_manifest_overwrites_earlier() {
    let p = js_parser(None);
    let files = vec![
        package_file(
            "/root/proj/a/package.json",
            PackageJson { dependencies: Some(pairs(&[("a", "^1.0.0"), ("b", "1.0.0")])), peer_dependencies: None },
        ),
        package_file(
            "/root/proj/b/package.json",
            PackageJson { dependencies: Some(pairs(&[("a", "^2.0.0")])), peer_dependencies: None },
        ),
    ];
    let deps = p.parse(&files).unwrap();
    assert_eq!(deps.len(), 2);
    assert_eq!(version_of(&deps, "a"), Some("2.0.0".to_string()));
    assert_eq!(version_of(&deps, "b"), Some("1.0.0".to_string()));
    assert_eq!(p.parse(&vec![]).unwrap().len(), 0);
}

#[test]
fn unreadable_package_manifest_names_its_path() {
    let p = js_parser(None);
    let files = vec![
        package_file(
            "/root/proj/a/package.json",
            PackageJson { dependencies: Some(pairs(&[("a", "1")])), peer_dependencies: None },
        ),
        PackageFile { path: "/root/proj/b/package.json".to_string(), document: None },
        PackageFile { path: "/root/proj/c/package.json".to_string(), document: None },
    ];
    match p.parse(&files) {
        Err(ScanError::ManifestParseError(path)) => assert_eq!(path, "/root/proj/b/package.json"),
        _ => panic!("expected a parse error"),
    }
}

#[test]
fn scanning_twice_gives_the_same_mapping() {
    let p = js_parser(Some(strings(&["x"])));
    let files = vec![package_file(
        "/root/proj/package.json",
        PackageJson {
            dependencies: Some(pairs(&[("a", "^1.0.0"), ("xa", "1"), ("b", "2")])),
            peer_dependencies: Some(pairs(&[("c", "^3")])),
        },
    )];
    let one = p.parse(&files).unwrap();
    let two = p.parse(&files).unwrap();
    assert_eq!(one.len(), 3);
    assert_eq!(one.len(), two.len());
    for i in 0..one.len() {
        let e = one.entry(i);
        assert_eq!(version_of(&two, &e.name), Some(e.version.clone()));
    }
}

#[test]
fn dependency_map_replaces_versions_by_name() {
    let mut m = DependencyMap::new();
    assert_eq!(m.len(), 0);
    assert_eq!(m.find(&"a".to_string()), None);
    m.insert("a".to_string(), "1".to_string());
    m.insert("b".to_string(), "2".to_string());
    m.insert("a".to_string(), "3".to_string());
    assert_eq!(m.len(), 2);
    assert_eq!(m.find(&"a".to_string()), Some(0));
    assert_eq!(m.find(&"b".to_string()), Some(1));
    assert_eq!(m.find(&"".to_string()), None);
    assert_eq!(m.entry(0).name, "a");
    assert_eq!(m.entry(0).version, "3");
    assert_eq!(m.get(&"b".to_string()), Some(&"2".to_string()));
    assert_eq!(m.get(&"c".to_string()), None);
    let copy = m.entry(1).duplicate();
    assert_eq!(copy.name, "b");
    assert_eq!(copy.version, "2");
}

#[test]
fn require_directives_are_recorded() {
    let p = go_parser(None);
    let go_mod = vec![
        ModDirective::Other,
        ModDirective::Require {
            specs: vec![
                DepsEntry { name: "example.com/a".to_string(), version: "v1.0.0".to_string() },
                DepsEntry { name: "example.com/b".to_string(), version: "v0.1.0".to_string() },
            ],
        },
        ModDirective::Require {
            specs: vec![DepsEntry { name: "example.com/a".to_string(), version: "v1.1.0".to_string() }],
        },
    ];
    let mut deps = DependencyMap::new();
    p.extract_dependencies(&go_mod, &mut deps);
    assert_eq!(deps.len(), 2);
    assert_eq!(version_of(&deps, "example.com/a"), Some("v1.1.0".to_string()));
    assert_eq!(version_of(&deps, "example.com/b"), Some("v0.1.0".to_string()));
}

#[test]
fn module_manifest_text_is_parsed() {
    let p = go_parser(None);
    let content = "module example.com/app\n\ngo 1.20\n\nrequire (\n\tgithub.com/pkg/errors v0.9.1\n\tgolang.org/x/text v0.3.7 // indirect\n)\n\nrequire github.com/google/uuid v1.3.0\n";
    let files = vec![ManifestFile { path: "/root/proj/go.mod".to_string(), content: content.to_string() }];
    let deps = p.parse(&files).unwrap();
    assert_eq!(deps.len(), 3);
    assert_eq!(version_of(&deps, "github.com/pkg/errors"), Some("v0.9.1".to_string()));
    assert_eq!(version_of(&deps, "golang.org/x/text"), Some("v0.3.7".to_string()));
    assert_eq!(version_of(&deps, "github.com/google/uuid"), Some("v1.3.0".to_string()));
    assert_eq!(version_of(&deps, "example.com/app"), None);
}

#[test]
fn second_module_manifest_wins() {
    let p = go_parser(None);
    let first = "module example.com/one\n\nrequire (\n\tgithub.com/pkg/errors v0.8.0\n\tgolang.org/x/text v0.3.7\n)\n";
    let second = "module example.com/two\n\nrequire github.com/pkg/errors v0.9.1\n";
    let files = vec![
        ManifestFile { path: "/root/proj/one/go.mod".to_string(), content: first.to_string() },
        ManifestFile { path: "/root/proj/two/go.mod".to_string(), content: second.to_string() },
    ];
    let deps = p.parse(&files).unwrap();
    assert_eq!(deps.len(), 2);
    assert_eq!(version_of(&deps, "github.com/pkg/errors"), Some("v0.9.1".to_string()));
    assert_eq!(version_of(&deps, "golang.org/x/text"), Some("v0.3.7".to_string()));
}

#[test]
fn unreadable_module_manifest_names_its_path() {
    let p = go_parser(None);
    let files = vec![
        ManifestFile { path: "/root/proj/ok/go.mod".to_string(), content: "module example.com/ok\n".to_string() },
        ManifestFile { path: "/root/proj/bad/go.mod".to_string(), content: "require (((\n".to_string() },
    ];
    match p.parse(&files) {
        Err(ScanError::ManifestParseError(path)) => assert_eq!(path, "/root/proj/bad/go.mod"),
        _ => panic!("expected a parse error"),
    }
}

#[test]
fn scan_errors_have_messages() {
    assert_eq!(ScanError::InvalidPattern.message(), "Failed to compile regex pattern");
    assert_eq!(
        ScanError::InvalidDirectory("x".to_string()).message(),
        "Failed to canonicalize directory: x"
    );
    assert_eq!(ScanError::ManifestParseError("/a/go.mod".to_string()).message(), "Failed to parse /a/go.mod");
}
