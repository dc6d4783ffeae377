//! The signing command: its options, and the decisions it makes before and
//! while it signs each input.
use vstd::prelude::*;
use crate::extension::{ext_normal, path_ext_normal};
use crate::path::{file_name_of, joined, opt_view};
use crate::planner::{
    all_named, check_all_named, count_existing, destination_in, destination_spec,
    effective_outputs, existing_count, lemma_none_existing, DestinationProbe, OutputKind, OutputLayout, PlanError,
};

verus! {

/// Where the manifest definition comes from: a local file or a URL. Exactly
/// one of the two is expected.
#[derive(Debug, Clone)]
pub struct ManifestSource {
    /// Path to the manifest definition.
    pub manifest: Option<String>,
    /// URL of the manifest definition.
    pub manifest_url: Option<String>,
}

/// The manifest definition's origin once the choice is made.
#[derive(Debug, Clone)]
pub enum InputSource {
    Path(String),
    Url(String),
}

impl ManifestSource {
    /// The one origin that is given; `None` where both or neither are.
    pub fn input_source(&self) -> (r: Option<InputSource>)
        ensures
            (self.manifest is Some && self.manifest_url is None) <==> (r is Some && r->0 is Path),
            (self.manifest is None && self.manifest_url is Some) <==> (r is Some && r->0 is Url),
            r is Some && r->0 is Path ==> Some(r->0->Path_0) == self.manifest,
            r is Some && r->0 is Url ==> Some(r->0->Url_0) == self.manifest_url,
    {
        match (&self.manifest, &self.manifest_url) {
            (Some(p), None) => Some(InputSource::Path(p.clone())),
            (None, Some(u)) => Some(InputSource::Url(u.clone())),
            _ => None,
        }
    }
}

/// The directory that relative resource paths are taken from.
#[derive(Debug, Clone)]
pub enum BaseDir {
    /// The directory of the manifest definition file at this path.
    ManifestParent(String),
    /// The process's working directory.
    WorkingDir,
}

impl InputSource {
    /// A definition read from a file has its resources beside it; one fetched
    /// from a URL has them under the working directory.
    pub fn base_dir(&self) -> (r: BaseDir)
        ensures
            self is Path <==> r is ManifestParent,
            self is Path ==> r->ManifestParent_0 == self->Path_0,
    {
        match self {
            InputSource::Path(p) => BaseDir::ManifestParent(p.clone()),
            InputSource::Url(_) => BaseDir::WorkingDir,
        }
    }
}

/// How the assembled manifest is attached to the output.
#[derive(Debug, Clone)]
pub enum EmbedMode {
    /// Embedded in the asset.
    Embedded,
    /// Written to a sidecar file only.
    Sidecar,
    /// Kept remotely at the URL; the asset only refers to it.
    Remote(String),
    /// Embedded, with a reference to the URL beside it.
    EmbeddedWithRemoteRef(String),
}

/// The next step in settling the manifest's parent.
#[derive(Debug, Clone)]
pub enum ParentStep {
    /// Load the parent given on the command line from this path.
    LoadExplicit(String),
    /// The definition names a parent already: keep it.
    KeepDefined,
    /// Inspect the source asset: if it carries manifest data, it is the parent.
    InspectSource,
}

/// What the manifest's parent turns out to be.
#[derive(Debug, Clone)]
pub enum ParentOutcome {
    /// The ingredient loaded from the explicit parent path.
    Explicit(String),
    /// The parent named by the definition.
    Defined,
    /// An ingredient made from the source asset itself.
    Source,
    /// No parent.
    NoParent,
}

impl ParentStep {
    pub open spec fn outcome_spec(self, source_has_manifest_data: bool) -> ParentOutcome {
        match self {
            ParentStep::LoadExplicit(p) => ParentOutcome::Explicit(p),
            ParentStep::KeepDefined => ParentOutcome::Defined,
            ParentStep::InspectSource => if source_has_manifest_data {
                ParentOutcome::Source
            } else {
                ParentOutcome::NoParent
            },
        }
    }

    /// The parent once the step is done; `source_has_manifest_data` is what the
    /// inspection of the source asset found, and is read only by that step.
    pub fn outcome(&self, source_has_manifest_data: bool) -> (r: ParentOutcome)
        ensures
            r == self.outcome_spec(source_has_manifest_data),
    {
        match self {
            ParentStep::LoadExplicit(p) => ParentOutcome::Explicit(p.clone()),
            ParentStep::KeepDefined => ParentOutcome::Defined,
            ParentStep::InspectSource => {
                if source_has_manifest_data {
                    ParentOutcome::Source
                } else {
                    ParentOutcome::NoParent
                }
            },
        }
    }
}

/// Which signer signs the claim.
#[derive(Debug, Clone)]
pub enum SignerChoice {
    /// The signer built from the signing configuration.
    BuiltIn,
    /// An external executable, with the bytes reserved for its signature.
    ExternalProcess { executable: String, reserve_size: usize },
}

/// The options of one signing run.
#[derive(Debug, Clone)]
pub struct Sign {
    /// The input assets.
    pub paths: Vec<String>,
    /// The output file, or the output directory for several outputs.
    pub output: String,
    pub manifest_source: ManifestSource,
    /// Write the manifest to a `.c2pa` file beside the output instead of embedding it.
    pub sidecar: bool,
    /// Overwrite outputs that already exist.
    pub force: bool,
    /// Path to the parent ingredient.
    pub parent: Option<String>,
    /// Executable that signs the claim bytes in place of the built-in signer.
    pub signer_path: Option<String>,
    /// Skip checking the signature after signing.
    pub verify_skipped: bool,
    /// Bytes reserved for the signature envelope of an external signer.
    pub reserve_size: usize,
}

impl Sign {
    /// How many outputs this run writes.
    pub open spec fn outputs(&self) -> nat {
        effective_outputs(self.paths@.len(), self.sidecar)
    }

    /// The layout that the planning table accepts, or `None` where it refuses.
    pub open spec fn planned_layout(&self, kind: OutputKind, probes: Seq<DestinationProbe>) -> Option<OutputLayout> {
        let dir = OutputLayout { is_dir: true, create_dir: false };
        let file = OutputLayout { is_dir: false, create_dir: false };
        if self.paths@.len() == 0 {
            None
        } else if self.outputs() >= 2 {
            match kind {
                OutputKind::File => None,
                OutputKind::Directory => if all_named(self.paths@) && (self.force || existing_count(probes, self.sidecar) == 0) {
                    Some(dir)
                } else {
                    None
                },
                OutputKind::Missing => if all_named(self.paths@) {
                    Some(OutputLayout { is_dir: true, create_dir: true })
                } else {
                    None
                },
            }
        } else {
            match kind {
                OutputKind::File => if self.force { Some(file) } else { None },
                OutputKind::Directory => if all_named(self.paths@) && (self.force || !probes[0].exists) {
                    Some(dir)
                } else {
                    None
                },
                OutputKind::Missing => if path_ext_normal(self.paths@[0]@) == path_ext_normal(self.output@) {
                    Some(file)
                } else {
                    None
                },
            }
        }
    }

    /// Where input `i` goes under `layout`.
    pub open spec fn target(&self, layout: OutputLayout, i: int) -> Option<Seq<char>> {
        if layout.is_dir {
            destination_spec(self.output@, self.paths@[i]@)
        } else {
            Some(self.output@)
        }
    }

    /// Without `force` nothing that exists is overwritten: an existing file
    /// output is refused, and an existing directory is accepted only where none
    /// of the destinations in it exists.
    pub proof fn lemma_no_silent_overwrite(&self, kind: OutputKind, probes: Seq<DestinationProbe>)
        requires
            !self.force,
            probes.len() == self.paths@.len(),
            self.planned_layout(kind, probes) is Some,
        ensures
            kind != OutputKind::File,
            kind == OutputKind::Directory ==> existing_count(probes, self.sidecar) == 0,
    {
        if kind == OutputKind::Directory && self.outputs() < 2 {
            assert(probes.drop_last().len() == 0);
            assert(existing_count(probes.drop_last(), self.sidecar) == 0);
        }
    }

    /// One input signed onto an output file that does not exist yet, with
    /// matching extensions and no sidecar, is accepted as a file output and is
    /// written at the output path itself.
    pub proof fn lemma_single_new_file(&self, probes: Seq<DestinationProbe>)
        requires
            self.paths@.len() == 1,
            !self.sidecar,
            path_ext_normal(self.paths@[0]@) == path_ext_normal(self.output@),
        ensures
            self.planned_layout(OutputKind::Missing, probes) == Some(OutputLayout { is_dir: false, create_dir: false }),
            self.target(OutputLayout { is_dir: false, create_dir: false }, 0) == Some(self.output@),
    {
    }

    /// Several inputs signed into an existing directory in which none of their
    /// destinations exist are accepted, each written inside the directory under
    /// its own file name.
    pub proof fn lemma_fresh_directory(&self, probes: Seq<DestinationProbe>)
        requires
            self.paths@.len() >= 2,
            probes.len() == self.paths@.len(),
            all_named(self.paths@),
            forall|i: int| 0 <= i < probes.len() ==> !(#[trigger] probes[i]).exists && !probes[i].sidecar_exists,
        ensures
            self.planned_layout(OutputKind::Directory, probes) == Some(OutputLayout { is_dir: true, create_dir: false }),
            forall|i: int| 0 <= i < self.paths@.len() ==> self.target(OutputLayout { is_dir: true, create_dir: false }, i)
                == Some(joined(self.output@, (#[trigger] file_name_of(self.paths@[i]@))->0)),
    {
        lemma_none_existing(probes, self.sidecar);
    }

    /// The parent step for a definition that names a parent (`defined`) or not.
    pub open spec fn parent_step_spec(&self, defined: bool) -> ParentStep {
        match self.parent {
            Some(p) => ParentStep::LoadExplicit(p),
            None => if defined { ParentStep::KeepDefined } else { ParentStep::InspectSource },
        }
    }

    /// An explicit parent wins; otherwise a parent named by the definition
    /// stays; otherwise the source asset is inspected.
    pub fn parent_step(&self, defined: bool) -> (r: ParentStep)
        ensures
            r == self.parent_step_spec(defined),
    {
        match &self.parent {
            Some(p) => ParentStep::LoadExplicit(p.clone()),
            None => {
                if defined {
                    ParentStep::KeepDefined
                } else {
                    ParentStep::InspectSource
                }
            },
        }
    }

    /// With no parent given explicitly and none named by the definition, a source
    /// asset that carries manifest data becomes the parent, and one that carries
    /// none leaves the manifest without a parent.
    pub proof fn lemma_source_becomes_parent(&self, source_has_manifest_data: bool)
        requires
            self.parent is None,
        ensures
            self.parent_step_spec(false).outcome_spec(source_has_manifest_data) == (if source_has_manifest_data {
                ParentOutcome::Source
            } else {
                ParentOutcome::NoParent
            }),
    {
    }

    /// An explicit parent is the parent whatever the definition and the source
    /// asset hold.
    pub proof fn lemma_explicit_parent_wins(&self, defined: bool, source_has_manifest_data: bool)
        requires
            self.parent is Some,
        ensures
            self.parent_step_spec(defined).outcome_spec(source_has_manifest_data)
                == ParentOutcome::Explicit(self.parent->0),
    {
    }

    /// The embedding mode for a definition from `source`.
    pub open spec fn embed_mode_spec(&self, source: InputSource) -> EmbedMode {
        match source {
            InputSource::Path(_) => if self.sidecar { EmbedMode::Sidecar } else { EmbedMode::Embedded },
            InputSource::Url(u) => if self.sidecar {
                EmbedMode::Remote(u)
            } else {
                EmbedMode::EmbeddedWithRemoteRef(u)
            },
        }
    }

    /// A local definition is embedded, or written as a sidecar; a remote one is
    /// referenced by its URL, from a sidecar-free asset or from an embedded copy.
    pub fn embed_mode(&self, source: &InputSource) -> (r: EmbedMode)
        ensures
            r == self.embed_mode_spec(*source),
    {
        match source {
            InputSource::Path(_) => {
                if self.sidecar {
                    EmbedMode::Sidecar
                } else {
                    EmbedMode::Embedded
                }
            },
            InputSource::Url(u) => {
                if self.sidecar {
                    EmbedMode::Remote(u.clone())
                } else {
                    EmbedMode::EmbeddedWithRemoteRef(u.clone())
                }
            },
        }
    }

    /// The signer: an external executable where one is given, with the reserve
    /// size, else the built-in one.
    pub fn signer_choice(&self) -> (r: SignerChoice)
        ensures
            self.signer_path is None ==> r is BuiltIn,
            self.signer_path is Some ==> r == (SignerChoice::ExternalProcess {
                executable: self.signer_path->0,
                reserve_size: self.reserve_size,
            }),
    {
        match &self.signer_path {
            Some(p) => SignerChoice::ExternalProcess { executable: p.clone(), reserve_size: self.reserve_size },
            None => SignerChoice::BuiltIn,
        }
    }

    /// Where input `i` is written: inside the output directory under its own
    /// file name, or at the output path itself.
    pub fn destination(&self, layout: OutputLayout, i: usize) -> (r: Option<String>)
        requires
            i < self.paths@.len(),
        ensures
            opt_view(r) == self.target(layout, i as int),
            !layout.is_dir ==> r == Some(self.output),
            layout.is_dir && all_named(self.paths@) ==> r is Some,
    {
        if layout.is_dir {
            let r = destination_in(self.output.as_str(), self.paths[i].as_str());
            proof {
                if all_named(self.paths@) {
                    assert(file_name_of(self.paths@[i as int]@) is Some);
                }
            }
            r
        } else {
            Some(self.output.clone())
        }
    }

    /// Checks the inputs against the output path and decides whether the output
    /// is a directory. `probes[i]` tells whether the destination of input `i`
    /// inside the output directory (and its sidecar variant) already exists; it
    /// is read only where the output is an existing directory.
    pub fn validate(&self, kind: OutputKind, probes: &Vec<DestinationProbe>) -> (r: Result<OutputLayout, PlanError>)
        requires
            probes@.len() == self.paths@.len(),
            2 * self.paths@.len() <= usize::MAX,
        ensures
            self.paths@.len() == 0 ==> r is Err && r->Err_0 is NoInput,
            self.outputs() >= 2 && kind == OutputKind::File ==> r is Err && r->Err_0 is OutputNotDirectory,
            self.outputs() >= 2 && kind == OutputKind::Directory ==> {
                if !all_named(self.paths@) {
                    r is Err && r->Err_0 is InputWithoutFileName
                } else if self.force || existing_count(probes@, self.sidecar) == 0 {
                    r == Ok::<OutputLayout, PlanError>(OutputLayout { is_dir: true, create_dir: false })
                } else {
                    r is Err && r->Err_0 == (PlanError::DestinationsExist {
                        existing: existing_count(probes@, self.sidecar) as usize,
                        total: self.outputs() as usize,
                    })
                }
            },
            self.outputs() == 1 && kind == OutputKind::File ==> {
                if self.force {
                    r == Ok::<OutputLayout, PlanError>(OutputLayout { is_dir: false, create_dir: false })
                } else {
                    r is Err && r->Err_0 is OutputExists
                }
            },
            self.outputs() == 1 && kind == OutputKind::Directory ==> {
                if !all_named(self.paths@) {
                    r is Err && r->Err_0 is InputWithoutFileName
                } else if self.force || !probes@[0].exists {
                    r == Ok::<OutputLayout, PlanError>(OutputLayout { is_dir: true, create_dir: false })
                } else {
                    r is Err && r->Err_0 is DestinationExists
                        && Some(r->Err_0->path@) == destination_spec(self.output@, self.paths@[0]@)
                }
            },
            self.outputs() >= 2 && kind == OutputKind::Missing ==> {
                if !all_named(self.paths@) {
                    r is Err && r->Err_0 is InputWithoutFileName
                } else {
                    r == Ok::<OutputLayout, PlanError>(OutputLayout { is_dir: true, create_dir: true })
                }
            },
            self.outputs() == 1 && kind == OutputKind::Missing ==> {
                let in_ext = path_ext_normal(self.paths@[0]@);
                let out_ext = path_ext_normal(self.output@);
                if in_ext == out_ext {
                    r == Ok::<OutputLayout, PlanError>(OutputLayout { is_dir: false, create_dir: false })
                } else {
                    r is Err && r->Err_0 is ExtensionMismatch
                        && r->Err_0->input_ext@ == in_ext
                        && r->Err_0->output_ext@ == out_ext
                }
            },
            r is Ok <==> self.planned_layout(kind, probes@) is Some,
            r is Ok ==> r->Ok_0 == self.planned_layout(kind, probes@)->0,
            r is Ok && r->Ok_0.is_dir ==> all_named(self.paths@),
    {
        let n = self.paths.len();
        if n == 0 {
            return Err(PlanError::NoInput);
        }
        let outputs: usize = if self.sidecar { 2 * n } else { n };
        if outputs >= 2 {
            match kind {
                OutputKind::File => Err(PlanError::OutputNotDirectory),
                OutputKind::Directory => {
                    if !check_all_named(&self.paths) {
                        return Err(PlanError::InputWithoutFileName);
                    }
                    if !self.force {
                        let existing = count_existing(probes, self.sidecar);
                        if existing > 0 {
                            return Err(PlanError::DestinationsExist { existing, total: outputs });
                        }
                    }
                    Ok(OutputLayout { is_dir: true, create_dir: false })
                },
                OutputKind::Missing => {
                    if !check_all_named(&self.paths) {
                        return Err(PlanError::InputWithoutFileName);
                    }
                    Ok(OutputLayout { is_dir: true, create_dir: true })
                },
            }
        } else {
            match kind {
                OutputKind::File => {
                    if !self.force {
                        return Err(PlanError::OutputExists);
                    }
                    Ok(OutputLayout { is_dir: false, create_dir: false })
                },
                OutputKind::Directory => {
                    let dest = destination_in(self.output.as_str(), self.paths[0].as_str());
                    match dest {
                        None => {
                            assert(file_name_of(self.paths@[0]@) is None);
                            Err(PlanError::InputWithoutFileName)
                        },
                        Some(path) => {
                            assert(all_named(self.paths@));
                            if !self.force && probes[0].exists {
                                return Err(PlanError::DestinationExists { path });
                            }
                            Ok(OutputLayout { is_dir: true, create_dir: false })
                        },
                    }
                },
                OutputKind::Missing => {
                    let input_ext = ext_normal(self.paths[0].as_str());
                    let output_ext = ext_normal(self.output.as_str());
                    if !crate::path::same_chars(input_ext.as_str(), output_ext.as_str()) {
                        return Err(PlanError::ExtensionMismatch { input_ext, output_ext });
                    }
                    Ok(OutputLayout { is_dir: false, create_dir: false })
                },
            }
        }
    }
}

} // verus!
