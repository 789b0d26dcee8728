//! The data of the mod manager: install categories, installed entries,
//! status messages and the pending install draft.

use vstd::prelude::*;

verus! {

/// The closed set of mod categories. Each has a fixed directory below the
/// mods root, a label for display, and the names of the subdirectories that
/// belong to other categories.
#[derive(Clone, Copy, PartialEq, Eq, Hash, Debug, Structural)]
pub enum InstallTarget {
    Tracks,
    BikesMotocross,
    BikesSupercross,
    BikesPaints,
    Tyres,
    RiderModels,
    RiderPaints,
    RiderGloves,
    RiderHelmets,
    RiderHelmetPaints,
    RiderBoots,
    RiderBootPaints,
    RiderProtections,
}

/// The number of categories.
pub const INSTALL_TARGET_COUNT: usize = 13;

/// Every category, in the order in which they are offered.
pub const ALL_INSTALL_TARGETS: [InstallTarget; 13] = [
    InstallTarget::Tracks,
    InstallTarget::BikesMotocross,
    InstallTarget::BikesSupercross,
    InstallTarget::BikesPaints,
    InstallTarget::Tyres,
    InstallTarget::RiderModels,
    InstallTarget::RiderPaints,
    InstallTarget::RiderGloves,
    InstallTarget::RiderHelmets,
    InstallTarget::RiderHelmetPaints,
    InstallTarget::RiderBoots,
    InstallTarget::RiderBootPaints,
    InstallTarget::RiderProtections,
];

/// The views of a sequence of string slices.
pub open spec fn strs_view<'a>(s: Seq<&'a str>) -> Seq<Seq<char>> {
    s.map_values(|x: &'a str| x@)
}

impl InstallTarget {
    /// The label shown for the category.
    pub open spec fn spec_label(self) -> Seq<char> {
        match self {
            Self::Tracks => "Tracks"@,
            Self::BikesMotocross => "Bikes Motocross"@,
            Self::BikesSupercross => "Bikes Supercross"@,
            Self::BikesPaints => "Bike Paints"@,
            Self::Tyres => "Tyres/Wheels"@,
            Self::RiderModels => "Rider Models"@,
            Self::RiderPaints => "Rider Paints"@,
            Self::RiderGloves => "Rider Gloves"@,
            Self::RiderHelmets => "Helmet Models"@,
            Self::RiderHelmetPaints => "Helmet Paints"@,
            Self::RiderBoots => "Boot Models"@,
            Self::RiderBootPaints => "Boot Paints"@,
            Self::RiderProtections => "Protections"@,
        }
    }

    /// The category's directory, relative to the mods root.
    pub open spec fn spec_relative_path(self) -> Seq<char> {
        match self {
            Self::Tracks => "tracks"@,
            Self::BikesMotocross => "bikes/motocross"@,
            Self::BikesSupercross => "bikes/supercross"@,
            Self::BikesPaints => "bikes/paints"@,
            Self::Tyres => "tyres"@,
            Self::RiderModels => "rider/riders"@,
            Self::RiderPaints => "rider/riders/paints"@,
            Self::RiderGloves => "rider/riders/gloves"@,
            Self::RiderHelmets => "rider/helmets"@,
            Self::RiderHelmetPaints => "rider/helmets/paints"@,
            Self::RiderBoots => "rider/boots"@,
            Self::RiderBootPaints => "rider/boots/paints"@,
            Self::RiderProtections => "rider/protections"@,
        }
    }

    /// The subdirectories of the category's directory that are categories of
    /// their own and are left out when the category is listed.
    pub open spec fn spec_excluded_subdirs(self) -> Seq<Seq<char>> {
        match self {
            Self::RiderModels => seq!["paints"@, "gloves"@],
            Self::RiderHelmets | Self::RiderBoots => seq!["paints"@],
            _ => Seq::empty(),
        }
    }

    /// The position of the category in [`all_install_targets`].
    pub open spec fn spec_index(self) -> int {
        match self {
            Self::Tracks => 0,
            Self::BikesMotocross => 1,
            Self::BikesSupercross => 2,
            Self::BikesPaints => 3,
            Self::Tyres => 4,
            Self::RiderModels => 5,
            Self::RiderPaints => 6,
            Self::RiderGloves => 7,
            Self::RiderHelmets => 8,
            Self::RiderHelmetPaints => 9,
            Self::RiderBoots => 10,
            Self::RiderBootPaints => 11,
            Self::RiderProtections => 12,
        }
    }

    /// The label shown for the category.
    pub fn label(self) -> (r: &'static str)
        ensures
            r@ == self.spec_label(),
    {
        match self {
            Self::Tracks => "Tracks",
            Self::BikesMotocross => "Bikes Motocross",
            Self::BikesSupercross => "Bikes Supercross",
            Self::BikesPaints => "Bike Paints",
            Self::Tyres => "Tyres/Wheels",
            Self::RiderModels => "Rider Models",
            Self::RiderPaints => "Rider Paints",
            Self::RiderGloves => "Rider Gloves",
            Self::RiderHelmets => "Helmet Models",
            Self::RiderHelmetPaints => "Helmet Paints",
            Self::RiderBoots => "Boot Models",
            Self::RiderBootPaints => "Boot Paints",
            Self::RiderProtections => "Protections",
        }
    }

    /// The category's directory, relative to the mods root.
    pub fn relative_path(self) -> (r: &'static str)
        ensures
            r@ == self.spec_relative_path(),
    {
        match self {
            Self::Tracks => "tracks",
            Self::BikesMotocross => "bikes/motocross",
            Self::BikesSupercross => "bikes/supercross",
            Self::BikesPaints => "bikes/paints",
            Self::Tyres => "tyres",
            Self::RiderModels => "rider/riders",
            Self::RiderPaints => "rider/riders/paints",
            Self::RiderGloves => "rider/riders/gloves",
            Self::RiderHelmets => "rider/helmets",
            Self::RiderHelmetPaints => "rider/helmets/paints",
            Self::RiderBoots => "rider/boots",
            Self::RiderBootPaints => "rider/boots/paints",
            Self::RiderProtections => "rider/protections",
        }
    }

    /// The names of the subdirectories that are left out when the category
    /// is listed.
    pub fn excluded_subdirs(self) -> (r: Vec<&'static str>)
        ensures
            strs_view(r@) == self.spec_excluded_subdirs(),
    {
        let mut out: Vec<&'static str> = Vec::new();
        match self {
            Self::RiderModels => {
                out.push("paints");
                out.push("gloves");
            },
            Self::RiderHelmets | Self::RiderBoots => {
                out.push("paints");
            },
            _ => {},
        }
        assert(strs_view(out@) =~= self.spec_excluded_subdirs());
        out
    }
}

/// Every category, in the order in which they are offered.
pub open spec fn spec_all_install_targets() -> Seq<InstallTarget> {
    seq![
        InstallTarget::Tracks,
        InstallTarget::BikesMotocross,
        InstallTarget::BikesSupercross,
        InstallTarget::BikesPaints,
        InstallTarget::Tyres,
        InstallTarget::RiderModels,
        InstallTarget::RiderPaints,
        InstallTarget::RiderGloves,
        InstallTarget::RiderHelmets,
        InstallTarget::RiderHelmetPaints,
        InstallTarget::RiderBoots,
        InstallTarget::RiderBootPaints,
        InstallTarget::RiderProtections,
    ]
}

/// Every category, in the order in which they are offered.
pub fn all_install_targets() -> (r: Vec<InstallTarget>)
    ensures
        r@ == spec_all_install_targets(),
        r.len() == INSTALL_TARGET_COUNT,
{
    let mut out: Vec<InstallTarget> = Vec::new();
    out.push(InstallTarget::Tracks);
    out.push(InstallTarget::BikesMotocross);
    out.push(InstallTarget::BikesSupercross);
    out.push(InstallTarget::BikesPaints);
    out.push(InstallTarget::Tyres);
    out.push(InstallTarget::RiderModels);
    out.push(InstallTarget::RiderPaints);
    out.push(InstallTarget::RiderGloves);
    out.push(InstallTarget::RiderHelmets);
    out.push(InstallTarget::RiderHelmetPaints);
    out.push(InstallTarget::RiderBoots);
    out.push(InstallTarget::RiderBootPaints);
    out.push(InstallTarget::RiderProtections);
    assert(out@ =~= spec_all_install_targets());
    out
}

/// The constant list holds every category, in the same order.
pub proof fn lemma_constant_list_is_complete()
    ensures
        ALL_INSTALL_TARGETS@ == spec_all_install_targets(),
{
    assert(ALL_INSTALL_TARGETS@ =~= spec_all_install_targets());
}

/// Each category stands exactly once in the list of all categories, at its
/// index.
pub proof fn lemma_all_install_targets_complete(t: InstallTarget)
    ensures
        0 <= t.spec_index() < spec_all_install_targets().len(),
        spec_all_install_targets()[t.spec_index()] == t,
        forall|i: int|
            0 <= i < spec_all_install_targets().len() && spec_all_install_targets()[i] == t ==> i
                == t.spec_index(),
{
}

/// Reveals the relative paths of all categories.
pub proof fn reveal_relative_paths()
    ensures
        "tracks"@ == seq!['t', 'r', 'a', 'c', 'k', 's'],
        "bikes/motocross"@.len() == 15 && "bikes/motocross"@[0] == 'b',
        "bikes/supercross"@.len() == 16 && "bikes/supercross"@[0] == 'b',
        "bikes/paints"@.len() == 12 && "bikes/paints"@[0] == 'b',
        "tyres"@.len() == 5,
        "rider/riders"@ == seq!['r', 'i', 'd', 'e', 'r', '/', 'r', 'i', 'd', 'e', 'r', 's'],
        "rider/riders/paints"@ == "rider/riders"@ + seq!['/'] + "paints"@,
        "rider/riders/gloves"@ == "rider/riders"@ + seq!['/'] + "gloves"@,
        "rider/helmets"@ == seq!['r', 'i', 'd', 'e', 'r', '/', 'h', 'e', 'l', 'm', 'e', 't', 's'],
        "rider/helmets/paints"@ == "rider/helmets"@ + seq!['/'] + "paints"@,
        "rider/boots"@ == seq!['r', 'i', 'd', 'e', 'r', '/', 'b', 'o', 'o', 't', 's'],
        "rider/boots/paints"@ == "rider/boots"@ + seq!['/'] + "paints"@,
        "rider/protections"@.len() == 17 && "rider/protections"@[6] == 'p',
        "paints"@ == seq!['p', 'a', 'i', 'n', 't', 's'],
        "gloves"@ == seq!['g', 'l', 'o', 'v', 'e', 's'],
{
    reveal_strlit("tracks");
    reveal_strlit("bikes/motocross");
    reveal_strlit("bikes/supercross");
    reveal_strlit("bikes/paints");
    reveal_strlit("tyres");
    reveal_strlit("rider/riders");
    reveal_strlit("rider/riders/paints");
    reveal_strlit("rider/riders/gloves");
    reveal_strlit("rider/helmets");
    reveal_strlit("rider/helmets/paints");
    reveal_strlit("rider/boots");
    reveal_strlit("rider/boots/paints");
    reveal_strlit("rider/protections");
    reveal_strlit("paints");
    reveal_strlit("gloves");
    assert("tracks"@ =~= seq!['t', 'r', 'a', 'c', 'k', 's']);
    assert("rider/riders"@ =~= seq!['r', 'i', 'd', 'e', 'r', '/', 'r', 'i', 'd', 'e', 'r', 's']);
    assert("rider/helmets"@ =~= seq![
        'r',
        'i',
        'd',
        'e',
        'r',
        '/',
        'h',
        'e',
        'l',
        'm',
        'e',
        't',
        's',
    ]);
    assert("rider/boots"@ =~= seq!['r', 'i', 'd', 'e', 'r', '/', 'b', 'o', 'o', 't', 's']);
    assert("paints"@ =~= seq!['p', 'a', 'i', 'n', 't', 's']);
    assert("gloves"@ =~= seq!['g', 'l', 'o', 'v', 'e', 's']);
    assert("rider/riders/paints"@ =~= "rider/riders"@ + seq!['/'] + "paints"@);
    assert("rider/riders/gloves"@ =~= "rider/riders"@ + seq!['/'] + "gloves"@);
    assert("rider/helmets/paints"@ =~= "rider/helmets"@ + seq!['/'] + "paints"@);
    assert("rider/boots/paints"@ =~= "rider/boots"@ + seq!['/'] + "paints"@);
}

/// Categories and their directories are a bijection: no two categories
/// share a directory.
pub proof fn lemma_relative_paths_differ(a: InstallTarget, b: InstallTarget)
    ensures
        a != b ==> a.spec_relative_path() != b.spec_relative_path(),
{
    reveal_relative_paths();
    let x = a.spec_relative_path();
    let y = b.spec_relative_path();
    if a != b && x.len() == y.len() {
        if x.len() == 12 {
            assert(x[0] != y[0]);
        } else {
            assert(x.len() == 19);
            assert(x[13] != y[13]);
        }
    }
}

/// No relative path is absolute or empty: each lies below the mods root.
pub proof fn lemma_relative_paths_are_relative(t: InstallTarget)
    ensures
        t.spec_relative_path().len() > 0,
        t.spec_relative_path()[0] != '/',
{
    reveal_relative_paths();
    reveal_strlit("tyres");
    reveal_strlit("rider/protections");
}

/// An installed mod found by a scan: the name of the directory or file, and
/// where it lies.
#[derive(Clone, Debug, PartialEq, Eq)]
pub struct ModEntry {
    pub name: String,
    pub path: String,
}

/// What a [`ModEntry`] holds, as text.
pub struct ModEntryView {
    pub name: Seq<char>,
    pub path: Seq<char>,
}

impl View for ModEntry {
    type V = ModEntryView;

    open spec fn view(&self) -> ModEntryView {
        ModEntryView { name: self.name@, path: self.path@ }
    }
}

impl DeepView for ModEntry {
    type V = ModEntryView;

    open spec fn deep_view(&self) -> ModEntryView {
        self@
    }
}

/// How a status message is to be read.
#[derive(Clone, Copy, PartialEq, Eq, Debug, Structural)]
pub enum StatusKind {
    Info,
    Success,
    Error,
}

/// The one-line message shown to the user after an operation.
#[derive(Clone, Debug, PartialEq, Eq)]
pub struct StatusMessage {
    pub kind: StatusKind,
    pub text: String,
}

/// What a [`StatusMessage`] holds, as text.
pub struct StatusMessageView {
    pub kind: StatusKind,
    pub text: Seq<char>,
}

impl View for StatusMessage {
    type V = StatusMessageView;

    open spec fn view(&self) -> StatusMessageView {
        StatusMessageView { kind: self.kind, text: self.text@ }
    }
}

/// Where a pending install comes from. An archive has been unpacked into a
/// temporary directory, which this value owns until the install is
/// committed or cancelled; a single file is installed from where it lies.
#[derive(Clone, Debug, PartialEq, Eq)]
pub enum PendingSource {
    Zip { archive_path: String, temp_extract_dir: String },
    Pkz { pkz_path: String },
    Pnt { pnt_path: String },
}

/// What a [`PendingSource`] holds, as text.
pub enum PendingSourceView {
    Zip { archive_path: Seq<char>, temp_extract_dir: Seq<char> },
    Pkz { pkz_path: Seq<char> },
    Pnt { pnt_path: Seq<char> },
}

impl PendingSourceView {
    /// The path of the file that was dropped.
    pub open spec fn input_path(self) -> Seq<char> {
        match self {
            Self::Zip { archive_path, .. } => archive_path,
            Self::Pkz { pkz_path } => pkz_path,
            Self::Pnt { pnt_path } => pnt_path,
        }
    }

    /// The temporary directory that the source owns, if it owns one.
    pub open spec fn owned_dir(self) -> Option<Seq<char>> {
        match self {
            Self::Zip { temp_extract_dir, .. } => Some(temp_extract_dir),
            _ => None,
        }
    }
}

impl View for PendingSource {
    type V = PendingSourceView;

    open spec fn view(&self) -> PendingSourceView {
        match self {
            Self::Zip { archive_path, temp_extract_dir } => PendingSourceView::Zip {
                archive_path: archive_path@,
                temp_extract_dir: temp_extract_dir@,
            },
            Self::Pkz { pkz_path } => PendingSourceView::Pkz { pkz_path: pkz_path@ },
            Self::Pnt { pnt_path } => PendingSourceView::Pnt { pnt_path: pnt_path@ },
        }
    }
}

impl PendingSource {
    /// The path of the file that was dropped.
    pub fn input_path(&self) -> (r: &str)
        ensures
            r@ == self@.input_path(),
    {
        match self {
            Self::Zip { archive_path, .. } => archive_path.as_str(),
            Self::Pkz { pkz_path } => pkz_path.as_str(),
            Self::Pnt { pnt_path } => pnt_path.as_str(),
        }
    }

    /// The directory whose removal releases what the source owns: the
    /// temporary extraction directory of an archive. A single file owns
    /// nothing.
    pub fn cleanup(&self) -> (r: Option<&str>)
        ensures
            (match r {
                Some(dir) => self@.owned_dir() == Some(dir@),
                None => self@.owned_dir() is None,
            }),
    {
        match self {
            Self::Zip { temp_extract_dir, .. } => Some(temp_extract_dir.as_str()),
            _ => None,
        }
    }
}

/// The draft that the user edits between staging and commit.
#[derive(Clone, Debug, PartialEq, Eq)]
pub struct PendingInstall {
    pub source: PendingSource,
    pub install_target: InstallTarget,
    pub custom_name: String,
    pub notes: String,
    pub version: String,
}

/// What a [`PendingInstall`] holds, as text.
pub struct PendingInstallView {
    pub source: PendingSourceView,
    pub install_target: InstallTarget,
    pub custom_name: Seq<char>,
    pub notes: Seq<char>,
    pub version: Seq<char>,
}

impl View for PendingInstall {
    type V = PendingInstallView;

    open spec fn view(&self) -> PendingInstallView {
        PendingInstallView {
            source: self.source@,
            install_target: self.install_target,
            custom_name: self.custom_name@,
            notes: self.notes@,
            version: self.version@,
        }
    }
}

} // verus!
