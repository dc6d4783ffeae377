use c2patool_sign::assembly::{
    ingredient_format, ingredient_path, tag_generator, tool_tag, verify_settings, IngredientFormat,
};
use c2patool_sign::extension::{ext_normal, normalize_ext, short_spelling};
use c2patool_sign::sign::{
    BaseDir, EmbedMode, InputSource, ManifestSource, ParentOutcome, ParentStep, Sign, SignerChoice,
};
use c2patool_sign::tally::{tally_of, RunFailure, Tally};

fn sign_with(sidecar: bool, parent: Option<&str>, signer_path: Option<&str>) -> Sign {
    Sign {
        paths: vec!["a.jpg".to_string()],
        output: "out.jpg".to_string(),
        manifest_source: ManifestSource { manifest: Some("m.json".to_string()), manifest_url: None },
        sidecar,
        force: false,
        parent: parent.map(|p| p.to_string()),
        signer_path: signer_path.map(|p| p.to_string()),
        verify_skipped: false,
        reserve_size: 20000,
    }
}

#[test]
fn extension_normalization() {
    assert_eq!(ext_normal("A.JPEG"), "jpg");
    assert_eq!(ext_normal("a.jpg"), "jpg");
    assert_eq!(ext_normal("x.TIFF"), "tif");
    assert_eq!(ext_normal("dir/clip.Mp4"), "mp4");
    assert_eq!(ext_normal("no_extension"), "");
    assert_eq!(ext_normal(".hidden"), "");
    assert_eq!(ext_normal("archive.tar.GZ"), "gz");
}

#[test]
fn extension_normalization_folds_every_letter() {
    assert_eq!(ext_normal("photo.ÄBC"), "äbc");
    assert_eq!(ext_normal("out.äbc"), "äbc");
    assert_eq!(normalize_ext("É"), normalize_ext("é"));
    assert_eq!(normalize_ext("ΣJPEG"), "σjpeg");
}

#[test]
fn short_spelling_of_lowered_extensions() {
    assert_eq!(short_spelling("jpeg"), "jpg");
    assert_eq!(short_spelling("tiff"), "tif");
    assert_eq!(short_spelling("jpg"), "jpg");
    assert_eq!(short_spelling("png"), "png");
    assert_eq!(short_spelling(""), "");
    assert_eq!(short_spelling("JPEG"), "JPEG");
}

#[test]
fn extension_normalization_is_idempotent() {
    for e in ["JPEG", "jpeg", "Tiff", "PnG", "", "jpg"] {
        let once = normalize_ext(e);
        assert_eq!(normalize_ext(&once), once);
    }
    assert_eq!(normalize_ext("JpEg"), normalize_ext("jpeg"));
}

#[test]
fn default_generator_is_replaced() {
    let tag = tool_tag("c2patool", "0.9.0");
    assert_eq!(tag, "c2patool/0.9.0");
    assert_eq!(tag_generator("c2pa/unspecified", &tag), "c2patool/0.9.0");
}

#[test]
fn other_generator_gets_tag_appended() {
    assert_eq!(tag_generator("my-app/1.0", "c2patool/0.9.0"), "my-app/1.0 c2patool/0.9.0");
    assert_eq!(tag_generator("c2pa", "t/1"), "c2pa t/1");
}

#[test]
fn ingredient_paths_resolve_against_base() {
    assert_eq!(ingredient_path("/base", "ing/i.json"), "/base/ing/i.json");
    assert_eq!(ingredient_path("/base", "/abs/i.jpg"), "/abs/i.jpg");
    assert_eq!(ingredient_format("ing/i.json"), IngredientFormat::Description);
    assert_eq!(ingredient_format("ing/i.JSON"), IngredientFormat::Asset);
    assert_eq!(ingredient_format("ing/i.jpg"), IngredientFormat::Asset);
}

#[test]
fn settings_document() {
    assert_eq!(verify_settings(true), "{\"verify\": { \"verify_after_sign\": true } }");
    assert_eq!(verify_settings(false), "{\"verify\": { \"verify_after_sign\": false } }");
}

#[test]
fn manifest_source_needs_exactly_one_origin() {
    let path = ManifestSource { manifest: Some("m.json".to_string()), manifest_url: None };
    assert!(matches!(path.input_source(), Some(InputSource::Path(p)) if p == "m.json"));
    let url = ManifestSource { manifest: None, manifest_url: Some("https://x/m.json".to_string()) };
    assert!(matches!(url.input_source(), Some(InputSource::Url(u)) if u == "https://x/m.json"));
    let both = ManifestSource { manifest: Some("m.json".to_string()), manifest_url: Some("https://x".to_string()) };
    assert!(both.input_source().is_none());
    let neither = ManifestSource { manifest: None, manifest_url: None };
    assert!(neither.input_source().is_none());
    assert!(matches!(InputSource::Path("d/m.json".to_string()).base_dir(), BaseDir::ManifestParent(p) if p == "d/m.json"));
    assert!(matches!(InputSource::Url("https://x".to_string()).base_dir(), BaseDir::WorkingDir));
}

#[test]
fn source_with_manifest_becomes_parent() {
    let s = sign_with(false, None, None);
    let step = s.parent_step(false);
    assert!(matches!(step, ParentStep::InspectSource));
    assert!(matches!(step.outcome(true), ParentOutcome::Source));
    assert!(matches!(step.outcome(false), ParentOutcome::NoParent));
    assert!(matches!(s.parent_step(true), ParentStep::KeepDefined));
    let s = sign_with(false, Some("p.json"), None);
    assert!(matches!(s.parent_step(false).outcome(true), ParentOutcome::Explicit(p) if p == "p.json"));
}

#[test]
fn embedding_modes() {
    let file = InputSource::Path("m.json".to_string());
    let url = InputSource::Url("https://x/m.json".to_string());
    assert!(matches!(sign_with(false, None, None).embed_mode(&file), EmbedMode::Embedded));
    assert!(matches!(sign_with(true, None, None).embed_mode(&file), EmbedMode::Sidecar));
    assert!(matches!(sign_with(true, None, None).embed_mode(&url), EmbedMode::Remote(u) if u == "https://x/m.json"));
    assert!(matches!(sign_with(false, None, None).embed_mode(&url), EmbedMode::EmbeddedWithRemoteRef(u) if u == "https://x/m.json"));
}

#[test]
fn signer_selection() {
    assert!(matches!(sign_with(false, None, None).signer_choice(), SignerChoice::BuiltIn));
    match sign_with(false, None, Some("./sign.sh")).signer_choice() {
        SignerChoice::ExternalProcess { executable, reserve_size } => {
            assert_eq!(executable, "./sign.sh");
            assert_eq!(reserve_size, 20000);
        }
        other => panic!("unexpected {:?}", other),
    }
}

#[test]
fn failed_input_is_counted_and_run_fails() {
    let t = tally_of(&vec![false]);
    assert_eq!(t.finish(), Err(RunFailure { failed: 1, total: 1 }));
    let t = tally_of(&vec![false, true, false]);
    assert_eq!(t.attempted, 3);
    assert_eq!(t.finish(), Err(RunFailure { failed: 2, total: 3 }));
    assert_eq!(tally_of(&vec![true, true]).finish(), Ok(()));
    assert_eq!(tally_of(&vec![]).finish(), Ok(()));
}

#[test]
fn tally_records_one_at_a_time() {
    let mut t = Tally::new(2);
    t.record(true);
    assert_eq!(t, Tally { total: 2, attempted: 1, failed: 0 });
    t.record(false);
    assert_eq!(t, Tally { total: 2, attempted: 2, failed: 1 });
}
