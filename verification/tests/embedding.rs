use binbundle::embed::{embed, embed_for_dialect, substitute};
use binbundle::lang::Language;
use binbundle::resolve::{resolve, BuildConfig, BuildUnit, PackageMeta, WorkspaceMetadata};
use binbundle::template::template_for;
use binbundle::triple::{extension_for, nth_dash_component};

#[test]
fn dash_components_keep_empty_parts() {
    assert_eq!(nth_dash_component("a-b-c-d", 0).as_deref(), Some("a"));
    assert_eq!(nth_dash_component("a-b-c-d", 2).as_deref(), Some("c"));
    assert_eq!(nth_dash_component("a--c", 1).as_deref(), Some(""));
    assert_eq!(nth_dash_component("abc", 0).as_deref(), Some("abc"));
    assert_eq!(nth_dash_component("abc", 1), None);
    assert_eq!(nth_dash_component("a-b", 2), None);
}

#[test]
fn extension_for_windows_triple() {
    assert_eq!(extension_for("x86_64-pc-windows-msvc"), ".exe");
    assert_eq!(extension_for("a-b-windows"), ".exe");
    assert_eq!(extension_for("a--windows"), ".exe");
    assert_eq!(extension_for("a-b-windows-extra"), ".exe");
}

#[test]
fn extension_for_other_triples_is_empty() {
    assert_eq!(extension_for("x86_64-unknown-linux-gnu"), "");
    assert_eq!(extension_for("x86_64-windows"), "");
    assert_eq!(extension_for("windows"), "");
    assert_eq!(extension_for("a-b-windowsx"), "");
    assert_eq!(extension_for(""), "");
}

#[test]
fn substitute_each_token_once_in_order() {
    let out = substitute("P={{BINARY}} N={{NAME}} S={{SOURCE_CODE}}", "QUJD", "binX", "src");
    assert_eq!(out, "P=QUJD N=binX S=src");
}

#[test]
fn substitute_leaves_lookalikes_in_inserted_source() {
    // The source text is inserted last, so a literal token inside it is not
    // substituted again.
    let out = substitute(
        "pay:{{BINARY}} src:{{SOURCE_CODE}} name:{{NAME}}",
        "QQ==",
        "binA",
        "uses {{BINARY}} literally",
    );
    assert_eq!(out, "pay:QQ== src:uses {{BINARY}} literally name:binA");
}

#[test]
fn substitute_replaces_only_first_of_repeated_token() {
    let out = substitute("{{NAME}} and {{NAME}}", "p", "n", "s");
    assert_eq!(out, "n and {{NAME}}");
}

#[test]
fn embed_exact_output() {
    let bin: Vec<u8> = Vec::new();
    let out = embed(
        "pay:{{BINARY}};name:{{NAME}};src:{{SOURCE_CODE}};",
        &bin,
        "x-y-windows",
        None,
        Language::Python,
    );
    assert_eq!(out, "pay:;name:binE3B0C442.exe;src:SOURCE CODE NOT FOUND;");
}

#[test]
fn embed_missing_source_falls_back() {
    let bin = b"\x00\x01\x02\x03".to_vec();
    let out = embed(
        "{{BINARY}}|{{NAME}}|{{SOURCE_CODE}}",
        &bin,
        "x86_64-unknown-linux-gnu",
        None,
        Language::Rust,
    );
    assert!(out.contains("SOURCE CODE NOT FOUND"));
    assert!(out.starts_with("AAECAw|"));
}

#[test]
fn embed_trims_source_text() {
    let bin = b"\x00".to_vec();
    let out = embed(
        "{{BINARY}}|{{NAME}}|{{SOURCE_CODE}}",
        &bin,
        "t",
        Some("fn main() {}\n\n"),
        Language::Rust,
    );
    assert!(out.ends_with("|fn main() {}"));
}

#[test]
fn templates_hold_each_token_once() {
    for lang in [Language::Rust, Language::Python] {
        let t = template_for(lang);
        assert_eq!(t.matches("{{BINARY}}").count(), 1);
        assert_eq!(t.matches("{{NAME}}").count(), 1);
        assert_eq!(t.matches("{{SOURCE_CODE}}").count(), 1);
    }
}

#[test]
fn scenario_python_workspace_app() {
    let cfg = BuildConfig {
        manifest_path: None,
        output: "main.py".to_owned(),
        bin: Some("app".to_owned()),
        target: "x86_64-unknown-linux-gnu".to_owned(),
        use_cross: false,
        panic_unwind: false,
        no_opt_size: false,
        no_upx: true,
        language: Language::Python,
    };
    let meta = WorkspaceMetadata {
        root_package: Some(PackageMeta {
            manifest_dir: "/ws".to_owned(),
            units: vec![BuildUnit {
                name: "app".to_owned(),
                is_bin: true,
                src_path: "/ws/src/main.rs".to_owned(),
            }],
        }),
        target_directory: "/ws/target".to_owned(),
    };
    let target = resolve(&cfg, &meta).unwrap();
    assert_eq!(target.bin_name, "app");
    assert_eq!(target.binary_path, "/ws/target/x86_64-unknown-linux-gnu/release/app");
    // Compression is skipped by configuration: the plan holds exactly one
    // build and no compressor stage.
    let plan = binbundle::driver::pipeline_plan(&cfg);
    assert!(!plan.contains(&binbundle::driver::PipelineStage::Compress));
    assert_eq!(
        plan.iter().filter(|s| **s == binbundle::driver::PipelineStage::Build).count(),
        1,
    );
    let bin = b"\x00\x01\x02\x03".to_vec();
    let out = embed_for_dialect(&bin, cfg.target.as_str(), None, cfg.language);
    // Padded base64 payload block, fallback source text, no .exe suffix.
    assert!(out.contains("PAYLOAD = \"AAECAw==\""));
    assert!(out.contains("SOURCE CODE NOT FOUND"));
    let ident = binbundle::encode::content_identifier(&bin);
    assert!(out.contains(&format!("bin{ident}")));
    assert!(!out.contains(".exe"));
}

#[test]
fn embed_for_dialect_uses_fixed_template() {
    let bin = b"xyz".to_vec();
    let out = embed_for_dialect(&bin, "a-b-c", Some("print()"), Language::Python);
    let by_hand = embed(template_for(Language::Python), &bin, "a-b-c", Some("print()"),
        Language::Python);
    assert_eq!(out, by_hand);
}

#[test]
fn parse_language_accepts_both_dialects_any_case() {
    assert_eq!(Language::parse("Rust"), Some(Language::Rust));
    assert_eq!(Language::parse("rust"), Some(Language::Rust));
    assert_eq!(Language::parse("RUST"), Some(Language::Rust));
    assert_eq!(Language::parse("Python"), Some(Language::Python));
    assert_eq!(Language::parse("pYtHoN"), Some(Language::Python));
}

#[test]
fn parse_language_rejects_other_words() {
    assert_eq!(Language::parse("ruby"), None);
    assert_eq!(Language::parse(""), None);
    assert_eq!(Language::parse("rusty"), None);
    assert_eq!(Language::parse("pytho"), None);
}

#[test]
fn language_from_str_carries_fixed_message() {
    assert_eq!("rust".parse::<Language>(), Ok(Language::Rust));
    assert_eq!("Python".parse::<Language>(), Ok(Language::Python));
    assert_eq!("nope".parse::<Language>(), Err("Could not parse Language"));
}
