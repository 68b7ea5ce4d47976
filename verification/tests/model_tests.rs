use serde_json::Value;

use brewman::model::{
    cask_package, formula_package, non_empty, outdated_entries, packages_from_info, sort_packages,
    CaskJson, FormulaJson, InfoV2, InstalledJson, Kind, OutdatedCask, OutdatedFormula, OutdatedV2,
    Package, VersionsJson,
};

fn s(v: &str) -> String {
    v.to_string()
}

const SAMPLE_INFO: &str = r#"{
  "formulae": [
    {
      "name": "wget",
      "full_name": "wget",
      "versions": { "stable": "1.21.4", "head": "HEAD" },
      "installed": [
        { "version": "1.21.3", "installed_as_dependency": false, "installed_on_request": true }
      ],
      "linked_keg": "1.21.3",
      "pinned": false,
      "outdated": true,
      "desc": "Internet file retriever",
      "homepage": "https://www.gnu.org/software/wget/",
      "dependencies": ["openssl@3"],
      "caveats": null
    },
    {
      "name": "nginx",
      "full_name": "nginx",
      "versions": { "stable": "1.25.3", "head": null },
      "installed": [
        { "version": "1.25.3", "installed_as_dependency": true, "installed_on_request": false }
      ],
      "linked_keg": null,
      "pinned": true,
      "outdated": false,
      "desc": null,
      "homepage": null,
      "dependencies": [],
      "caveats": "Please note"
    }
  ],
  "casks": [
    {
      "token": "visual-studio-code",
      "name": ["Visual Studio Code"],
      "desc": "Code editor",
      "homepage": "https://code.visualstudio.com/",
      "version": "1.85.1",
      "installed": "1.84.2",
      "outdated": true,
      "auto_updates": true
    }
  ]
}"#;

const SAMPLE_OUTDATED: &str = r#"{
  "formulae": [
    { "name": "wget", "installed_versions": ["1.21.3"], "current_version": "1.21.4" }
  ],
  "casks": [
    { "name": "visual-studio-code", "installed_versions": ["1.84.2"], "current_version": "1.85.1" }
  ]
}"#;

fn opt_str(v: &Value, k: &str) -> Option<String> {
    v.get(k).and_then(Value::as_str).map(String::from)
}

fn opt_bool(v: &Value, k: &str) -> Option<bool> {
    v.get(k).and_then(Value::as_bool)
}

fn req_str(v: &Value, k: &str) -> Result<String, String> {
    opt_str(v, k).ok_or_else(|| format!("missing field `{k}`"))
}

fn str_list(v: &Value, k: &str) -> Vec<String> {
    v.get(k)
        .and_then(Value::as_array)
        .map(|a| a.iter().filter_map(|x| x.as_str().map(String::from)).collect())
        .unwrap_or_default()
}

fn list<'a>(v: &'a Value, k: &str) -> Vec<&'a Value> {
    v.get(k).and_then(Value::as_array).map(|a| a.iter().collect()).unwrap_or_default()
}

/// Reads the JSON of `brew info --json=v2 --installed` into the library's data.
fn info_from_json(json: &str) -> Result<InfoV2, String> {
    let v: Value = serde_json::from_str(json).map_err(|e| e.to_string())?;
    let mut formulae = vec![];
    for f in list(&v, "formulae") {
        let versions = f.get("versions").cloned().unwrap_or(Value::Null);
        let mut installed = vec![];
        for i in list(f, "installed") {
            installed.push(InstalledJson {
                version: req_str(i, "version")?,
                installed_as_dependency: opt_bool(i, "installed_as_dependency"),
                installed_on_request: opt_bool(i, "installed_on_request"),
            });
        }
        formulae.push(FormulaJson {
            name: req_str(f, "name")?,
            full_name: opt_str(f, "full_name").unwrap_or_default(),
            versions: VersionsJson {
                stable: opt_str(&versions, "stable"),
                head: opt_str(&versions, "head"),
            },
            installed,
            pinned: opt_bool(f, "pinned"),
            outdated: opt_bool(f, "outdated"),
            desc: opt_str(f, "desc"),
            homepage: opt_str(f, "homepage"),
            dependencies: str_list(f, "dependencies"),
            caveats: opt_str(f, "caveats"),
        });
    }
    let mut casks = vec![];
    for c in list(&v, "casks") {
        casks.push(CaskJson {
            token: req_str(c, "token")?,
            name: str_list(c, "name"),
            desc: opt_str(c, "desc"),
            homepage: opt_str(c, "homepage"),
            version: opt_str(c, "version"),
            installed: opt_str(c, "installed"),
            outdated: opt_bool(c, "outdated"),
            auto_updates: opt_bool(c, "auto_updates"),
        });
    }
    Ok(InfoV2 { formulae, casks })
}

fn parse_installed_info(json: &str) -> Result<Vec<Package>, String> {
    Ok(packages_from_info(info_from_json(json)?))
}

fn parse_outdated(json: &str) -> Result<Vec<(String, String)>, String> {
    let v: Value = serde_json::from_str(json).map_err(|e| e.to_string())?;
    let mut formulae = vec![];
    for f in list(&v, "formulae") {
        formulae.push(OutdatedFormula {
            name: req_str(f, "name")?,
            current_version: req_str(f, "current_version")?,
        });
    }
    let mut casks = vec![];
    for c in list(&v, "casks") {
        casks.push(OutdatedCask {
            name: req_str(c, "name")?,
            current_version: req_str(c, "current_version")?,
        });
    }
    Ok(outdated_entries(OutdatedV2 { formulae, casks }))
}

#[test]
fn parses_info() {
    let pkgs = parse_installed_info(SAMPLE_INFO).expect("parse ok");
    assert_eq!(pkgs.len(), 3);

    let wget = pkgs.iter().find(|p| p.name == "wget").expect("wget");
    assert_eq!(wget.kind, Kind::Formula);
    assert_eq!(wget.current_version.as_deref(), Some("1.21.3"));
    assert_eq!(wget.latest_version.as_deref(), Some("1.21.4"));
    assert_eq!(wget.head_version.as_deref(), Some("HEAD"));
    assert!(wget.outdated);

    let nginx = pkgs.iter().find(|p| p.name == "nginx").expect("nginx");
    assert!(nginx.pinned);
    assert!(nginx.installed_as_dependency);
    assert!(!nginx.outdated);

    let vscode = pkgs
        .iter()
        .find(|p| p.name == "visual-studio-code")
        .expect("vscode");
    assert_eq!(vscode.kind, Kind::Cask);
    assert_eq!(vscode.display_name, "Visual Studio Code");
    assert_eq!(vscode.current_version.as_deref(), Some("1.84.2"));
    assert!(vscode.auto_updates);
}

#[test]
fn parses_outdated() {
    let entries = parse_outdated(SAMPLE_OUTDATED).expect("parse ok");
    assert_eq!(entries.len(), 2);
    assert!(entries.contains(&("wget".to_string(), "1.21.4".to_string())));
}

#[test]
fn sort_outdated_first() {
    let pkgs = parse_installed_info(SAMPLE_INFO).expect("parse ok");
    assert_eq!(pkgs[0].name, "visual-studio-code");
    assert_eq!(pkgs[1].name, "wget");
    assert_eq!(pkgs[2].name, "nginx");
}

#[test]
fn outdated_entries_keep_formulae_then_casks() {
    let entries = parse_outdated(SAMPLE_OUTDATED).expect("parse ok");
    assert_eq!(entries[0], (s("wget"), s("1.21.4")));
    assert_eq!(entries[1], (s("visual-studio-code"), s("1.85.1")));
}

#[test]
fn kind_labels() {
    assert_eq!(Kind::Formula.label(), "formula");
    assert_eq!(Kind::Cask.label(), "cask");
}

#[test]
fn non_empty_drops_empty_strings() {
    assert_eq!(non_empty(Some(s(""))), None);
    assert_eq!(non_empty(Some(s("1.0"))), Some(s("1.0")));
    assert_eq!(non_empty(None), None);
}

fn formula(name: &str) -> FormulaJson {
    FormulaJson {
        name: s(name),
        full_name: s(""),
        versions: VersionsJson { stable: Some(s("")), head: None },
        installed: vec![],
        pinned: None,
        outdated: None,
        desc: None,
        homepage: None,
        dependencies: vec![],
        caveats: None,
    }
}

#[test]
fn formula_defaults() {
    let p = formula_package(formula("jq"));
    assert_eq!(p.kind, Kind::Formula);
    assert_eq!(p.display_name, "jq");
    assert_eq!(p.current_version, None);
    assert_eq!(p.latest_version, None);
    assert!(p.installed_versions.is_empty());
    assert!(!p.outdated && !p.pinned && !p.installed_as_dependency && !p.installed_on_request);
}

#[test]
fn formula_keeps_every_installed_version() {
    let mut f = formula("python");
    f.full_name = s("homebrew/core/python");
    f.installed = vec![
        InstalledJson {
            version: s("3.12.1"),
            installed_as_dependency: None,
            installed_on_request: Some(true),
        },
        InstalledJson { version: s("3.11.7"), installed_as_dependency: Some(true), installed_on_request: None },
    ];
    let p = formula_package(f);
    assert_eq!(p.display_name, "homebrew/core/python");
    assert_eq!(p.current_version.as_deref(), Some("3.12.1"));
    assert_eq!(p.installed_versions, vec![s("3.12.1"), s("3.11.7")]);
    assert!(p.installed_on_request);
    assert!(!p.installed_as_dependency);
}

#[test]
fn cask_without_name_shows_token() {
    let c = CaskJson {
        token: s("firefox"),
        name: vec![],
        desc: None,
        homepage: None,
        version: Some(s("latest")),
        installed: Some(s("")),
        outdated: None,
        auto_updates: None,
    };
    let p = cask_package(c);
    assert_eq!(p.display_name, "firefox");
    assert_eq!(p.current_version, None);
    assert!(p.installed_versions.is_empty());
    assert_eq!(p.latest_version.as_deref(), Some("latest"));
    assert!(!p.auto_updates);
}

fn pkg(name: &str, outdated: bool, kind: Kind) -> Package {
    Package {
        kind,
        name: s(name),
        display_name: s(name),
        current_version: None,
        latest_version: None,
        head_version: None,
        installed_versions: vec![],
        outdated,
        pinned: false,
        installed_as_dependency: false,
        installed_on_request: false,
        auto_updates: false,
        dependencies: vec![],
        desc: None,
        homepage: None,
        caveats: None,
    }
}

#[test]
fn sort_is_stable_for_equal_names() {
    let v = vec![
        pkg("docker", false, Kind::Formula),
        pkg("bat", true, Kind::Formula),
        pkg("docker", false, Kind::Cask),
        pkg("Zed", false, Kind::Cask),
        pkg("ab", false, Kind::Formula),
    ];
    let r = sort_packages(v);
    let names: Vec<(&str, Kind)> = r.iter().map(|p| (p.name.as_str(), p.kind)).collect();
    assert_eq!(
        names,
        vec![
            ("bat", Kind::Formula),
            ("Zed", Kind::Cask),
            ("ab", Kind::Formula),
            ("docker", Kind::Formula),
            ("docker", Kind::Cask),
        ]
    );
}

#[test]
fn sort_orders_by_code_points() {
    let r = sort_packages(vec![
        pkg("émoji", false, Kind::Formula),
        pkg("zsh", false, Kind::Formula),
        pkg("z", false, Kind::Formula),
    ]);
    let names: Vec<&str> = r.iter().map(|p| p.name.as_str()).collect();
    assert_eq!(names, vec!["z", "zsh", "émoji"]);
}
