//! Output planning: reconciles the inputs of a run with its single output path
//! before anything is written, so that nothing is silently overwritten.
use vstd::prelude::*;
use crate::path::{extension_replaced, file_name_of, joined, path_file_name, path_join, path_set_extension};

verus! {

/// What the output path is on disk when the run starts.
#[derive(Debug, Clone, Copy, PartialEq, Eq, Structural)]
pub enum OutputKind {
    Missing,
    File,
    Directory,
}

impl OutputKind {
    /// The kind from the two probes `exists` and `is_dir`; a path that does not
    /// exist cannot be a directory.
    pub fn from_probe(exists: bool, is_dir: bool) -> (r: OutputKind)
        requires
            is_dir ==> exists,
        ensures
            r == (if !exists { OutputKind::Missing } else if is_dir { OutputKind::Directory } else { OutputKind::File }),
    {
        if !exists {
            OutputKind::Missing
        } else if is_dir {
            OutputKind::Directory
        } else {
            OutputKind::File
        }
    }
}

/// Whether the destination of one input (inside an output directory) already
/// exists, and whether its sidecar variant does.
#[derive(Debug, Clone, Copy, PartialEq, Eq, Structural)]
pub struct DestinationProbe {
    pub exists: bool,
    pub sidecar_exists: bool,
}

/// The accepted layout: whether the output is a directory, and whether it has
/// to be created first.
#[derive(Debug, Clone, Copy, PartialEq, Eq, Structural)]
pub struct OutputLayout {
    pub is_dir: bool,
    pub create_dir: bool,
}

/// Why a run's inputs and output cannot be reconciled.
#[derive(Debug, Clone)]
pub enum PlanError {
    /// No input path was given.
    NoInput,
    /// Several outputs are due and the output path is an existing file.
    OutputNotDirectory,
    /// `existing` of the `total` destinations inside the output directory exist.
    DestinationsExist { existing: usize, total: usize },
    /// The single output is an existing file and overwriting was not forced.
    OutputExists,
    /// The single destination inside the output directory exists.
    DestinationExists { path: String },
    /// The normalised extensions of input and output differ.
    ExtensionMismatch { input_ext: String, output_ext: String },
    /// An input has no file name to place inside the output directory.
    InputWithoutFileName,
}

/// The extension that marks a sidecar manifest file.
pub open spec fn sidecar_ext() -> Seq<char> {
    seq!['c', '2', 'p', 'a']
}

/// How many outputs a run of `n` inputs writes.
pub open spec fn effective_outputs(n: nat, sidecar: bool) -> nat {
    if sidecar { 2 * n } else { n }
}

/// Every path has a file name.
pub open spec fn all_named(paths: Seq<String>) -> bool {
    forall|i: int| 0 <= i < paths.len() ==> (#[trigger] file_name_of(paths[i]@)) is Some
}

/// The destinations that exist, sidecar variants counted when `sidecar` holds.
pub open spec fn existing_count(probes: Seq<DestinationProbe>, sidecar: bool) -> nat
    decreases probes.len(),
{
    if probes.len() == 0 {
        0
    } else {
        existing_count(probes.drop_last(), sidecar) + (if probes.last().exists { 1nat } else { 0nat })
            + (if sidecar && probes.last().sidecar_exists { 1nat } else { 0nat })
    }
}

/// Where `input` goes inside the directory `output`.
pub open spec fn destination_spec(output: Seq<char>, input: Seq<char>) -> Option<Seq<char>> {
    match file_name_of(input) {
        Some(name) => Some(joined(output, name)),
        None => None,
    }
}

/// The destination of `input` inside the directory `output`; `None` where the
/// input has no file name.
pub fn destination_in(output: &str, input: &str) -> (r: Option<String>)
    ensures
        crate::path::opt_view(r) == destination_spec(output@, input@),
{
    match path_file_name(input) {
        Some(name) => Some(path_join(output, name.as_str())),
        None => None,
    }
}

/// The sidecar manifest path that goes with the destination `dest`.
pub fn sidecar_path(dest: &str) -> (r: String)
    ensures
        r@ == extension_replaced(dest@, sidecar_ext()),
{
    let mut ext = String::new();
    crate::path::push_char(&mut ext, 'c');
    crate::path::push_char(&mut ext, '2');
    crate::path::push_char(&mut ext, 'p');
    crate::path::push_char(&mut ext, 'a');
    assert(ext@ == sidecar_ext());
    assert(forall|i: int| 0 <= i < ext@.len() ==> ext@[i] != '/');
    path_set_extension(dest, ext.as_str())
}

pub(crate) fn check_all_named(paths: &Vec<String>) -> (r: bool)
    ensures
        r == all_named(paths@),
{
    let mut i: usize = 0;
    while i < paths.len()
        invariant
            i <= paths@.len(),
            forall|j: int| 0 <= j < i ==> (#[trigger] file_name_of(paths@[j]@)) is Some,
        decreases paths@.len() - i,
    {
        if path_file_name(paths[i].as_str()).is_none() {
            return false;
        }
        i = i + 1;
    }
    true
}

/// Where no destination exists, none is counted.
pub proof fn lemma_none_existing(probes: Seq<DestinationProbe>, sidecar: bool)
    requires
        forall|i: int| 0 <= i < probes.len() ==> !(#[trigger] probes[i]).exists && !probes[i].sidecar_exists,
    ensures
        existing_count(probes, sidecar) == 0,
    decreases probes.len(),
{
    if probes.len() > 0 {
        let init = probes.drop_last();
        assert forall|i: int| 0 <= i < init.len() implies !(#[trigger] init[i]).exists && !init[i].sidecar_exists by {
            assert(init[i] == probes[i]);
        }
        lemma_none_existing(init, sidecar);
    }
}

proof fn lemma_existing_count_bound(probes: Seq<DestinationProbe>, sidecar: bool)
    ensures
        existing_count(probes, sidecar) <= 2 * probes.len(),
    decreases probes.len(),
{
    if probes.len() > 0 {
        lemma_existing_count_bound(probes.drop_last(), sidecar);
    }
}

pub(crate) fn count_existing(probes: &Vec<DestinationProbe>, sidecar: bool) -> (r: usize)
    requires
        2 * probes@.len() <= usize::MAX,
    ensures
        r == existing_count(probes@, sidecar),
{
    let mut count: usize = 0;
    let mut i: usize = 0;
    while i < probes.len()
        invariant
            i <= probes@.len(),
            2 * probes@.len() <= usize::MAX,
            count == existing_count(probes@.subrange(0, i as int), sidecar),
        decreases probes@.len() - i,
    {
        let ghost prefix = probes@.subrange(0, i as int);
        let ghost next = probes@.subrange(0, i + 1);
        assert(next.drop_last() == prefix);
        proof {
            lemma_existing_count_bound(prefix, sidecar);
        }
        let p = probes[i];
        if p.exists {
            count = count + 1;
        }
        if sidecar && p.sidecar_exists {
            count = count + 1;
        }
        i = i + 1;
    }
    assert(probes@.subrange(0, probes@.len() as int) == probes@);
    count
}

} // verus!
