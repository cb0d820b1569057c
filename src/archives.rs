//! The archive section: which files go into release archives, and how they
//! are packed.
use vstd::prelude::*;

use crate::formats::{CompressionImpl, LibraryStyle, ZipStyle};
use crate::layer::{
    apply_opt, apply_val, lemma_overridden_fold, layered_all, overridden, overridden_opt, ApplyLayer,
};
use crate::workspace::{PackageIdx, WorkspaceGraph};

verus! {

/// The archive section once resolved: every field holds a value.
#[derive(Debug, Clone)]
pub struct ArchiveConfig {
    /// Static files to bundle, in order.
    pub includes: Vec<String>,
    /// Whether to add files like `README*`, `(UN)LICENSE*`, `RELEASES*` and
    /// `CHANGELOG*` when they are found.
    pub auto_includes: bool,
    /// The archive format for windows builds.
    pub windows_archive: ZipStyle,
    /// The archive format for every other build.
    pub unix_archive: ZipStyle,
    /// The kinds of built library to bundle, in order.
    pub package_libraries: Vec<LibraryStyle>,
    /// Whether binaries go at the root of the archive rather than in a
    /// subdirectory.
    pub binaries_in_root: bool,
}

/// The archive section as one source writes it: an absent field defers to
/// the layers below and to the defaults.
#[derive(Debug, Clone)]
pub struct ArchiveLayer {
    /// Static files to bundle, in order.
    pub includes: Option<Vec<String>>,
    /// Whether to add conventional files when they are found.
    pub auto_includes: Option<bool>,
    /// The archive format for windows builds.
    pub windows_archive: Option<ZipStyle>,
    /// The archive format for every other build.
    pub unix_archive: Option<ZipStyle>,
    /// The kinds of built library to bundle, in order.
    pub package_libraries: Option<Vec<LibraryStyle>>,
    /// Whether binaries go at the root of the archive.
    pub binaries_in_root: Option<bool>,
}

/// The contents of an `ArchiveConfig`, with its lists as sequences.
pub ghost struct ArchiveSettings {
    pub includes: Seq<String>,
    pub auto_includes: bool,
    pub windows_archive: ZipStyle,
    pub unix_archive: ZipStyle,
    pub package_libraries: Seq<LibraryStyle>,
    pub binaries_in_root: bool,
}

impl View for ArchiveConfig {
    type V = ArchiveSettings;

    open spec fn view(&self) -> ArchiveSettings {
        ArchiveSettings {
            includes: self.includes@,
            auto_includes: self.auto_includes,
            windows_archive: self.windows_archive,
            unix_archive: self.unix_archive,
            package_libraries: self.package_libraries@,
            binaries_in_root: self.binaries_in_root,
        }
    }
}

/// The built-in archive settings of package `pkg` of `workspaces`: no extra
/// files, conventional files detected, `.zip` on windows, `.tar.xz` elsewhere,
/// no libraries, binaries in a subdirectory.
pub open spec fn archive_defaults(workspaces: WorkspaceGraph, pkg: PackageIdx) -> ArchiveSettings {
    ArchiveSettings {
        includes: Seq::empty(),
        auto_includes: true,
        windows_archive: ZipStyle::Zip,
        unix_archive: ZipStyle::Tar(CompressionImpl::Xzip),
        package_libraries: Seq::empty(),
        binaries_in_root: false,
    }
}

impl ArchiveConfig {
    /// The defaults for package `pkg` of `workspaces`.
    pub fn defaults_for_package(workspaces: &WorkspaceGraph, pkg: PackageIdx) -> (r: Self)
        ensures
            r@ == archive_defaults(*workspaces, pkg),
    {
        ArchiveConfig {
            includes: Vec::new(),
            auto_includes: true,
            windows_archive: ZipStyle::Zip,
            unix_archive: ZipStyle::Tar(CompressionImpl::Xzip),
            package_libraries: Vec::new(),
            binaries_in_root: false,
        }
    }
}

impl ArchiveLayer {
    /// The layer in which every field is absent.
    pub open spec fn absent() -> ArchiveLayer {
        ArchiveLayer {
            includes: None,
            auto_includes: None,
            windows_archive: None,
            unix_archive: None,
            package_libraries: None,
            binaries_in_root: None,
        }
    }
}

impl Default for ArchiveLayer {
    fn default() -> (r: Self)
        ensures
            r == ArchiveLayer::absent(),
    {
        ArchiveLayer {
            includes: None,
            auto_includes: None,
            windows_archive: None,
            unix_archive: None,
            package_libraries: None,
            binaries_in_root: None,
        }
    }
}

impl ApplyLayer for ArchiveConfig {
    type Layer = ArchiveLayer;

    open spec fn layered(self, layer: ArchiveLayer) -> ArchiveConfig {
        ArchiveConfig {
            includes: overridden(self.includes, layer.includes),
            auto_includes: overridden(self.auto_includes, layer.auto_includes),
            windows_archive: overridden(self.windows_archive, layer.windows_archive),
            unix_archive: overridden(self.unix_archive, layer.unix_archive),
            package_libraries: overridden(self.package_libraries, layer.package_libraries),
            binaries_in_root: overridden(self.binaries_in_root, layer.binaries_in_root),
        }
    }

    fn apply_layer(&mut self, layer: ArchiveLayer) {
        let ArchiveLayer {
            includes,
            auto_includes,
            windows_archive,
            unix_archive,
            package_libraries,
            binaries_in_root,
        } = layer;
        apply_val(&mut self.includes, includes);
        apply_val(&mut self.auto_includes, auto_includes);
        apply_val(&mut self.windows_archive, windows_archive);
        apply_val(&mut self.unix_archive, unix_archive);
        apply_val(&mut self.package_libraries, package_libraries);
        apply_val(&mut self.binaries_in_root, binaries_in_root);
    }
}

impl ApplyLayer for ArchiveLayer {
    type Layer = ArchiveLayer;

    open spec fn layered(self, layer: ArchiveLayer) -> ArchiveLayer {
        ArchiveLayer {
            includes: overridden_opt(self.includes, layer.includes),
            auto_includes: overridden_opt(self.auto_includes, layer.auto_includes),
            windows_archive: overridden_opt(self.windows_archive, layer.windows_archive),
            unix_archive: overridden_opt(self.unix_archive, layer.unix_archive),
            package_libraries: overridden_opt(self.package_libraries, layer.package_libraries),
            binaries_in_root: overridden_opt(self.binaries_in_root, layer.binaries_in_root),
        }
    }

    fn apply_layer(&mut self, layer: ArchiveLayer) {
        let ArchiveLayer {
            includes,
            auto_includes,
            windows_archive,
            unix_archive,
            package_libraries,
            binaries_in_root,
        } = layer;
        apply_opt(&mut self.includes, includes);
        apply_opt(&mut self.auto_includes, auto_includes);
        apply_opt(&mut self.windows_archive, windows_archive);
        apply_opt(&mut self.unix_archive, unix_archive);
        apply_opt(&mut self.package_libraries, package_libraries);
        apply_opt(&mut self.binaries_in_root, binaries_in_root);
    }
}

/// The defaults do not depend on the workspace or the package asked about,
/// so two calls with equal (or any) context give equal configurations.
pub proof fn lemma_defaults_pure(
    workspaces1: WorkspaceGraph,
    pkg1: PackageIdx,
    workspaces2: WorkspaceGraph,
    pkg2: PackageIdx,
)
    ensures
        archive_defaults(workspaces1, pkg1) == archive_defaults(workspaces2, pkg2),
{
}

/// Applying a layer in which every field is absent leaves a configuration as
/// it was.
pub proof fn lemma_absent_layer_is_identity(config: ArchiveConfig)
    ensures
        config.layered(ArchiveLayer::absent()) == config,
{
}

/// Each field of the result is the layer's entry for it where that entry is
/// present, and the configuration's own value where it is absent: a layer
/// with one field present changes that field and no other, and a present list
/// replaces the old one rather than joining it.
pub proof fn lemma_fields_follow_their_entries(config: ArchiveConfig, layer: ArchiveLayer)
    ensures
        ({
            let r = config.layered(layer);
            &&& r.includes == (match layer.includes {
                Some(v) => v,
                None => config.includes,
            })
            &&& r.auto_includes == (match layer.auto_includes {
                Some(v) => v,
                None => config.auto_includes,
            })
            &&& r.windows_archive == (match layer.windows_archive {
                Some(v) => v,
                None => config.windows_archive,
            })
            &&& r.unix_archive == (match layer.unix_archive {
                Some(v) => v,
                None => config.unix_archive,
            })
            &&& r.package_libraries == (match layer.package_libraries {
                Some(v) => v,
                None => config.package_libraries,
            })
            &&& r.binaries_in_root == (match layer.binaries_in_root {
                Some(v) => v,
                None => config.binaries_in_root,
            })
        }),
{
}

/// Applying `first` and then `second` to a configuration gives what applying
/// the layer folded from the two (`second` onto `first`) gives, whatever
/// fields each of them holds.
pub proof fn lemma_fold_two(config: ArchiveConfig, first: ArchiveLayer, second: ArchiveLayer)
    ensures
        config.layered(first).layered(second) == config.layered(first.layered(second)),
{
    lemma_overridden_fold(config.includes, first.includes, second.includes);
    lemma_overridden_fold(config.auto_includes, first.auto_includes, second.auto_includes);
    lemma_overridden_fold(config.windows_archive, first.windows_archive, second.windows_archive);
    lemma_overridden_fold(config.unix_archive, first.unix_archive, second.unix_archive);
    lemma_overridden_fold(
        config.package_libraries,
        first.package_libraries,
        second.package_libraries,
    );
    lemma_overridden_fold(config.binaries_in_root, first.binaries_in_root, second.binaries_in_root);
}

/// Applying a layer folded from `acc` and then `layers` equals applying `acc`
/// and then each of `layers` in turn.
proof fn lemma_fold_from(config: ArchiveConfig, acc: ArchiveLayer, layers: Seq<ArchiveLayer>)
    ensures
        layered_all(config.layered(acc), layers) == config.layered(layered_all(acc, layers)),
    decreases layers.len(),
{
    if layers.len() > 0 {
        lemma_fold_two(config, acc, layers[0]);
        lemma_fold_from(config, acc.layered(layers[0]), layers.drop_first());
    }
}

/// Applying `layers` one after another to a configuration gives what
/// applying once the layer folded from all of them gives.
pub proof fn lemma_fold_all(config: ArchiveConfig, layers: Seq<ArchiveLayer>)
    ensures
        layered_all(config, layers) == config.layered(layered_all(ArchiveLayer::absent(), layers)),
{
    lemma_absent_layer_is_identity(config);
    lemma_fold_from(config, ArchiveLayer::absent(), layers);
}

} // verus!
