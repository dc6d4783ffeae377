use c2patool_sign::planner::{
    destination_in, sidecar_path, DestinationProbe, OutputKind, OutputLayout, PlanError,
};
use c2patool_sign::sign::{ManifestSource, Sign};

fn sign_of(paths: &[&str], output: &str, sidecar: bool, force: bool) -> Sign {
    Sign {
        paths: paths.iter().map(|p| p.to_string()).collect(),
        output: output.to_string(),
        manifest_source: ManifestSource { manifest: Some("definition.json".to_string()), manifest_url: None },
        sidecar,
        force,
        parent: None,
        signer_path: None,
        verify_skipped: false,
        reserve_size: 20000,
    }
}

fn probes(n: usize, exists: bool, sidecar_exists: bool) -> Vec<DestinationProbe> {
    vec![DestinationProbe { exists, sidecar_exists }; n]
}

fn layout(is_dir: bool, create_dir: bool) -> OutputLayout {
    OutputLayout { is_dir, create_dir }
}

#[test]
fn no_input_fails_for_every_output_kind() {
    for kind in [OutputKind::Missing, OutputKind::File, OutputKind::Directory] {
        for sidecar in [false, true] {
            for force in [false, true] {
                let s = sign_of(&[], "out", sidecar, force);
                assert!(matches!(s.validate(kind, &vec![]), Err(PlanError::NoInput)));
            }
        }
    }
}

#[test]
fn existing_file_with_several_outputs_fails() {
    for force in [false, true] {
        let s = sign_of(&["a.jpg", "b.jpg"], "out.jpg", false, force);
        assert!(matches!(s.validate(OutputKind::File, &probes(2, false, false)), Err(PlanError::OutputNotDirectory)));
        // one input with a sidecar is two outputs
        let s = sign_of(&["a.jpg"], "out.jpg", true, force);
        assert!(matches!(s.validate(OutputKind::File, &probes(1, false, false)), Err(PlanError::OutputNotDirectory)));
    }
}

#[test]
fn existing_directory_with_several_outputs() {
    let s = sign_of(&["a.jpg", "b.jpg"], "out", false, false);
    assert_eq!(s.validate(OutputKind::Directory, &probes(2, false, false)).unwrap(), layout(true, false));
    let p = vec![
        DestinationProbe { exists: true, sidecar_exists: true },
        DestinationProbe { exists: false, sidecar_exists: true },
    ];
    match s.validate(OutputKind::Directory, &p) {
        Err(PlanError::DestinationsExist { existing, total }) => {
            assert_eq!(existing, 1);
            assert_eq!(total, 2);
        }
        other => panic!("unexpected {:?}", other),
    }
    let s = sign_of(&["a.jpg", "b.jpg"], "out", true, false);
    match s.validate(OutputKind::Directory, &p) {
        Err(PlanError::DestinationsExist { existing, total }) => {
            assert_eq!(existing, 3);
            assert_eq!(total, 4);
        }
        other => panic!("unexpected {:?}", other),
    }
    let s = sign_of(&["a.jpg", "b.jpg"], "out", true, true);
    assert_eq!(s.validate(OutputKind::Directory, &p).unwrap(), layout(true, false));
}

#[test]
fn existing_file_with_one_output_needs_force() {
    let s = sign_of(&["a.jpg"], "out.jpg", false, false);
    assert!(matches!(s.validate(OutputKind::File, &probes(1, false, false)), Err(PlanError::OutputExists)));
    let s = sign_of(&["a.jpg"], "out.jpg", false, true);
    assert_eq!(s.validate(OutputKind::File, &probes(1, false, false)).unwrap(), layout(false, false));
}

#[test]
fn existing_directory_with_one_output() {
    let s = sign_of(&["in/a.jpg"], "out", false, false);
    assert_eq!(s.validate(OutputKind::Directory, &probes(1, false, false)).unwrap(), layout(true, false));
    match s.validate(OutputKind::Directory, &probes(1, true, false)) {
        Err(PlanError::DestinationExists { path }) => assert_eq!(path, "out/a.jpg"),
        other => panic!("unexpected {:?}", other),
    }
    let s = sign_of(&["in/a.jpg"], "out", false, true);
    assert_eq!(s.validate(OutputKind::Directory, &probes(1, true, false)).unwrap(), layout(true, false));
}

#[test]
fn missing_output_with_several_outputs_is_created_as_directory() {
    for force in [false, true] {
        let s = sign_of(&["a.jpg", "b.png"], "out", false, force);
        assert_eq!(s.validate(OutputKind::Missing, &probes(2, false, false)).unwrap(), layout(true, true));
        let s = sign_of(&["a.jpg"], "out.png", true, force);
        assert_eq!(s.validate(OutputKind::Missing, &probes(1, false, false)).unwrap(), layout(true, true));
    }
}

#[test]
fn missing_output_with_one_output_needs_matching_extensions() {
    let s = sign_of(&["a.JPEG"], "out.jpg", false, false);
    assert_eq!(s.validate(OutputKind::Missing, &probes(1, false, false)).unwrap(), layout(false, false));
    let s = sign_of(&["a.tif"], "b/out.TIFF", false, true);
    assert_eq!(s.validate(OutputKind::Missing, &probes(1, false, false)).unwrap(), layout(false, false));
}

#[test]
fn extensions_match_whatever_the_case_of_any_letter() {
    let s = sign_of(&["photo.ÄBC"], "out.äbc", false, false);
    assert_eq!(s.validate(OutputKind::Missing, &probes(1, false, false)).unwrap(), layout(false, false));
}

#[test]
fn extension_mismatch_names_both_extensions() {
    let s = sign_of(&["photo.png"], "out.jpg", false, false);
    match s.validate(OutputKind::Missing, &probes(1, false, false)) {
        Err(PlanError::ExtensionMismatch { input_ext, output_ext }) => {
            assert_eq!(input_ext, "png");
            assert_eq!(output_ext, "jpg");
        }
        other => panic!("unexpected {:?}", other),
    }
}

#[test]
fn directory_layout_needs_file_names() {
    let s = sign_of(&["a.jpg", ".."], "out", false, false);
    assert!(matches!(s.validate(OutputKind::Missing, &probes(2, false, false)), Err(PlanError::InputWithoutFileName)));
    let s = sign_of(&[".."], "out", false, false);
    assert!(matches!(s.validate(OutputKind::Directory, &probes(1, false, false)), Err(PlanError::InputWithoutFileName)));
}

#[test]
fn single_new_file_output_goes_to_output_path() {
    let s = sign_of(&["in/photo.jpg"], "signed.jpg", false, false);
    let planned = s.validate(OutputKind::Missing, &probes(1, false, false)).unwrap();
    assert_eq!(planned, layout(false, false));
    assert_eq!(s.destination(planned, 0), Some("signed.jpg".to_string()));
}

#[test]
fn two_inputs_into_empty_directory() {
    let s = sign_of(&["x/a.jpg", "y/b.png"], "outdir", false, false);
    let planned = s.validate(OutputKind::Directory, &probes(2, false, false)).unwrap();
    assert_eq!(planned, layout(true, false));
    assert_eq!(s.destination(planned, 0), Some("outdir/a.jpg".to_string()));
    assert_eq!(s.destination(planned, 1), Some("outdir/b.png".to_string()));
}

#[test]
fn destinations_and_sidecars() {
    assert_eq!(destination_in("out", "some/dir/a.jpg"), Some("out/a.jpg".to_string()));
    assert_eq!(destination_in("out/", "b.png"), Some("out/b.png".to_string()));
    assert_eq!(destination_in("out", ".."), None);
    assert_eq!(sidecar_path("out/a.jpg"), "out/a.c2pa");
    assert_eq!(sidecar_path("out/noext"), "out/noext.c2pa");
}

#[test]
fn output_kind_from_probes() {
    assert_eq!(OutputKind::from_probe(false, false), OutputKind::Missing);
    assert_eq!(OutputKind::from_probe(true, false), OutputKind::File);
    assert_eq!(OutputKind::from_probe(true, true), OutputKind::Directory);
}
