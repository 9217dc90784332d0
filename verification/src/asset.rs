//! Asset requests, import diagnostics, dependency tracking and the loader's
//! format support matrix.

use vstd::prelude::*;

use crate::ids::AssetId;
#[allow(unused_imports)]
use vstd::string::*;

verus! {

/// `std::path::PathBuf`, carried opaquely as the location of a local asset;
/// nothing is claimed about its contents.
#[verifier::external_type_specification]
#[verifier::external_body]
pub struct ExPathBuf(std::path::PathBuf);

/// `Clone for std::path::PathBuf`: per its documentation the clone is a copy
/// of the same path, so it is taken to equal the original.
pub assume_specification[ <std::path::PathBuf as Clone>::clone ](p: &std::path::PathBuf) -> (copy:
    std::path::PathBuf)
    ensures
        copy == *p,
;

/// `std::time::SystemTime`, carried opaquely as a dependency's recorded
/// modification time; nothing is claimed about its contents.
#[verifier::external_type_specification]
#[verifier::external_body]
pub struct ExSystemTime(std::time::SystemTime);

/// Source that produced an asset package.
#[derive(Clone, Debug, PartialEq, Eq, PartialOrd, Ord)]
pub enum AssetSource {
    /// Local file path.
    Path(std::path::PathBuf),
    /// Remote URL.
    Url(String),
    /// Caller-owned byte buffer.
    Bytes { label: String, len: usize },
}

/// File or byte request for the asset manager.
#[derive(Clone, Debug, PartialEq, Eq)]
pub struct AssetRequest {
    /// Stable request identifier.
    pub id: AssetId,
    /// Source to load.
    pub source: AssetSource,
}

impl AssetRequest {
    /// Creates a path request.
    pub fn path(id: AssetId, path: std::path::PathBuf) -> (request: Self)
        ensures
            request.id == id,
            request.source == AssetSource::Path(path),
    {
        AssetRequest { id, source: AssetSource::Path(path) }
    }

    /// Creates a URL request.
    pub fn url(id: AssetId, url: String) -> (request: Self)
        ensures
            request.id == id,
            request.source == AssetSource::Url(url),
    {
        AssetRequest { id, source: AssetSource::Url(url) }
    }

    /// Creates an embedded byte request.
    pub fn bytes(id: AssetId, label: String, len: usize) -> (request: Self)
        ensures
            request.id == id,
            request.source == (AssetSource::Bytes { label, len }),
    {
        AssetRequest { id, source: AssetSource::Bytes { label, len } }
    }
}

/// Severity for import diagnostics.
#[derive(Clone, Copy, Debug, PartialEq, Eq, PartialOrd, Ord, Structural)]
pub enum AssetDiagnosticSeverity {
    /// Informational metadata.
    Info,
    /// Feature was imported with a fallback or partial mapping.
    Warning,
    /// Feature cannot be imported by this build.
    Unsupported,
}

/// Structured import/export diagnostic.
#[derive(Clone, Debug, PartialEq, Eq)]
pub struct AssetDiagnostic {
    /// Severity.
    pub severity: AssetDiagnosticSeverity,
    /// Machine-readable code.
    pub code: String,
    /// Human-readable message.
    pub message: String,
}

impl AssetDiagnostic {
    /// Creates an informational diagnostic.
    pub fn info(code: String, message: String) -> (diagnostic: Self)
        ensures
            diagnostic.severity == AssetDiagnosticSeverity::Info,
            diagnostic.code == code,
            diagnostic.message == message,
    {
        Self::new(AssetDiagnosticSeverity::Info, code, message)
    }

    /// Creates a warning diagnostic.
    pub fn warning(code: String, message: String) -> (diagnostic: Self)
        ensures
            diagnostic.severity == AssetDiagnosticSeverity::Warning,
            diagnostic.code == code,
            diagnostic.message == message,
    {
        Self::new(AssetDiagnosticSeverity::Warning, code, message)
    }

    /// Creates an unsupported-feature diagnostic.
    pub fn unsupported(code: String, message: String) -> (diagnostic: Self)
        ensures
            diagnostic.severity == AssetDiagnosticSeverity::Unsupported,
            diagnostic.code == code,
            diagnostic.message == message,
    {
        Self::new(AssetDiagnosticSeverity::Unsupported, code, message)
    }

    /// Creates a diagnostic.
    pub fn new(severity: AssetDiagnosticSeverity, code: String, message: String) -> (diagnostic:
        Self)
        ensures
            diagnostic.severity == severity,
            diagnostic.code == code,
            diagnostic.message == message,
    {
        AssetDiagnostic { severity, code, message }
    }
}

/// Whether any diagnostic reports an unsupported feature.
pub open spec fn any_unsupported(diagnostics: Seq<AssetDiagnostic>) -> bool {
    exists|i: int|
        0 <= i < diagnostics.len() && diagnostics[i].severity
            == AssetDiagnosticSeverity::Unsupported
}

/// Returns whether any of a package's diagnostics reports an unsupported
/// feature.
pub fn has_unsupported_features(diagnostics: &[AssetDiagnostic]) -> (b: bool)
    ensures
        b == any_unsupported(diagnostics@),
{
    let mut i: usize = 0;
    while i < diagnostics.len()
        invariant
            i <= diagnostics@.len(),
            forall|j: int| 0 <= j < i ==> diagnostics@[j].severity != AssetDiagnosticSeverity::Unsupported,
        decreases diagnostics@.len() - i,
    {
        match diagnostics[i].severity {
            AssetDiagnosticSeverity::Unsupported => {
                return true;
            },
            _ => {},
        }
        i = i + 1;
    }
    false
}

/// One tracked asset dependency.
#[derive(Clone, Debug, PartialEq, Eq)]
pub struct AssetDependency {
    /// Source path, URL, or byte label.
    pub source: AssetSource,
    /// Best-effort byte size.
    pub bytes: usize,
    /// Last modification timestamp for local paths.
    pub modified: Option<std::time::SystemTime>,
}

/// Sum of the byte sizes of `deps`.
pub open spec fn dependency_bytes(deps: Seq<AssetDependency>) -> int
    decreases deps.len(),
{
    if deps.len() == 0 {
        0
    } else {
        dependency_bytes(deps.drop_last()) + deps.last().bytes
    }
}

/// Dependency graph for invalidation and hot reload.
#[derive(Clone, Debug, PartialEq, Eq)]
pub struct AssetDependencyGraph {
    /// Dependencies in deterministic source order.
    pub dependencies: Vec<AssetDependency>,
}

impl Default for AssetDependencyGraph {
    fn default() -> (graph: Self)
        ensures
            graph.dependencies@.len() == 0,
    {
        AssetDependencyGraph::new()
    }
}

impl AssetDependencyGraph {
    /// Creates an empty graph.
    pub fn new() -> (graph: Self)
        ensures
            graph.dependencies@.len() == 0,
    {
        AssetDependencyGraph { dependencies: Vec::new() }
    }

    /// Records a local path with the size and modification time read from its
    /// metadata (zero bytes and no timestamp when the metadata was unreadable).
    pub fn record_local(
        &mut self,
        path: std::path::PathBuf,
        bytes: usize,
        modified: Option<std::time::SystemTime>,
    )
        ensures
            final(self).dependencies@ == old(self).dependencies@.push(
                AssetDependency { source: AssetSource::Path(path), bytes, modified },
            ),
    {
        self.dependencies.push(AssetDependency { source: AssetSource::Path(path), bytes, modified });
    }

    /// Records a remote URL.
    pub fn record_url(&mut self, url: String, bytes: usize)
        ensures
            final(self).dependencies@ == old(self).dependencies@.push(
                AssetDependency { source: AssetSource::Url(url), bytes, modified: None },
            ),
    {
        self.dependencies.push(AssetDependency { source: AssetSource::Url(url), bytes, modified: None });
    }

    /// Records an embedded byte dependency.
    pub fn record_bytes(&mut self, label: String, bytes: usize)
        ensures
            final(self).dependencies@ == old(self).dependencies@.push(
                AssetDependency {
                    source: AssetSource::Bytes { label, len: bytes },
                    bytes,
                    modified: None,
                },
            ),
    {
        self.dependencies.push(
            AssetDependency {
                source: AssetSource::Bytes { label, len: bytes },
                bytes,
                modified: None,
            },
        );
    }

    /// Returns total tracked dependency bytes.
    pub fn total_bytes(&self) -> (total: usize)
        requires
            dependency_bytes(self.dependencies@) <= usize::MAX,
        ensures
            total == dependency_bytes(self.dependencies@),
    {
        let mut total: usize = 0;
        let mut i: usize = 0;
        while i < self.dependencies.len()
            invariant
                i <= self.dependencies@.len(),
                dependency_bytes(self.dependencies@) <= usize::MAX,
                total == dependency_bytes(self.dependencies@.take(i as int)),
            decreases self.dependencies@.len() - i,
        {
            proof {
                assert(self.dependencies@.take(i as int + 1).drop_last() =~= self.dependencies@.take(
                    i as int,
                ));
                lemma_dependency_bytes_prefix(self.dependencies@, i as int + 1);
            }
            total = total + self.dependencies[i].bytes;
            i = i + 1;
        }
        proof {
            assert(self.dependencies@.take(self.dependencies@.len() as int) =~= self.dependencies@);
        }
        total
    }
}

/// A prefix of a dependency list never holds more bytes than the whole list.
proof fn lemma_dependency_bytes_prefix(deps: Seq<AssetDependency>, n: int)
    requires
        0 <= n <= deps.len(),
    ensures
        dependency_bytes(deps.take(n)) <= dependency_bytes(deps),
    decreases deps.len(),
{
    if n < deps.len() {
        assert(deps.drop_last().take(n) =~= deps.take(n));
        lemma_dependency_bytes_prefix(deps.drop_last(), n);
    } else {
        assert(deps.take(n) =~= deps);
    }
}

/// Material variant metadata imported from `KHR_materials_variants`.
#[derive(Clone, Debug, PartialEq, Eq)]
pub struct MaterialVariant {
    /// Source variant index.
    pub index: u32,
    /// Source variant name if available.
    pub name: String,
}

/// Imported animation target property.
#[derive(Clone, Copy, Debug, PartialEq, Eq, Structural)]
pub enum LoadedAnimationProperty {
    /// Node translation.
    Translation,
    /// Node rotation.
    Rotation,
    /// Node scale.
    Scale,
    /// Morph target weights.
    MorphTargetWeights,
}

/// Imported animation interpolation.
#[derive(Clone, Copy, Debug, PartialEq, Eq, Structural)]
pub enum LoadedAnimationInterpolation {
    /// Linear interpolation.
    Linear,
    /// Step interpolation.
    Step,
    /// Cubic spline interpolation.
    CubicSpline,
}

/// Loader support level for a file family.
#[derive(Clone, Copy, Debug, PartialEq, Eq, Structural)]
pub enum AssetFormatSupport {
    /// Fully decoded into scenix CPU data.
    Full,
    /// Metadata or a focused subset is decoded.
    Partial,
    /// Recognized but not decoded by this build.
    DiagnosticOnly,
}

/// One row in the asset format support matrix.
#[derive(Clone, Copy, Debug, PartialEq, Eq)]
pub struct AssetFormatInfo {
    /// Human-readable format family.
    pub name: &'static str,
    /// Common file extensions.
    pub extensions: &'static [&'static str],
    /// Support level.
    pub support: AssetFormatSupport,
}

/// Number of rows in the support matrix.
pub const ASSET_FORMAT_COUNT: usize = 8;

/// The family name of support-matrix row `i`.
pub open spec fn format_name(i: int) -> Seq<char> {
    if i == 0 {
        "glTF / GLB"@
    } else if i == 1 {
        "OBJ / MTL"@
    } else if i == 2 {
        "STL"@
    } else if i == 3 {
        "Images"@
    } else if i == 4 {
        "KTX2 / DDS / HDR"@
    } else if i == 5 {
        "PLY / VOX / SVG / IES / LUT"@
    } else if i == 6 {
        "Collada / 3MF / VTK / LDraw / TTF"@
    } else {
        "FBX / USD / USDZ / Rhino / UltraHDR"@
    }
}

/// The extensions of support-matrix row `i`.
pub open spec fn format_extensions(i: int) -> Seq<Seq<char>> {
    if i == 0 {
        seq!["gltf"@, "glb"@]
    } else if i == 1 {
        seq!["obj"@]
    } else if i == 2 {
        seq!["stl"@]
    } else if i == 3 {
        seq!["png"@, "jpg"@, "jpeg"@, "webp"@, "tga"@, "tif"@, "tiff"@, "exr"@]
    } else if i == 4 {
        seq!["ktx2"@, "dds"@, "hdr"@]
    } else if i == 5 {
        seq!["ply"@, "vox"@, "svg"@, "ies"@, "cube"@, "3dl"@]
    } else if i == 6 {
        seq!["dae"@, "3mf"@, "vtk"@, "ldr"@, "dat"@, "ttf"@, "otf"@]
    } else {
        seq!["fbx"@, "usd"@, "usdz"@, "3dm"@, "uhdr"@]
    }
}

/// The support level of support-matrix row `i`.
pub open spec fn format_support(i: int) -> AssetFormatSupport {
    if i <= 3 {
        AssetFormatSupport::Full
    } else if i <= 5 {
        AssetFormatSupport::Partial
    } else {
        AssetFormatSupport::DiagnosticOnly
    }
}

/// Whether `info` is support-matrix row `i`.
pub open spec fn is_format_row(info: AssetFormatInfo, i: int) -> bool {
    &&& info.name@ == format_name(i)
    &&& info.extensions@.map_values(|e: &str| e@) == format_extensions(i)
    &&& info.support == format_support(i)
}

/// Returns row `i` of the asset pipeline support matrix.
pub fn asset_format(i: usize) -> (info: AssetFormatInfo)
    requires
        i < ASSET_FORMAT_COUNT,
    ensures
        is_format_row(info, i as int),
{
    let info = if i == 0 {
        AssetFormatInfo {
            name: "glTF / GLB",
            extensions: &["gltf", "glb"],
            support: AssetFormatSupport::Full,
        }
    } else if i == 1 {
        AssetFormatInfo { name: "OBJ / MTL", extensions: &["obj"], support: AssetFormatSupport::Full }
    } else if i == 2 {
        AssetFormatInfo { name: "STL", extensions: &["stl"], support: AssetFormatSupport::Full }
    } else if i == 3 {
        AssetFormatInfo {
            name: "Images",
            extensions: &["png", "jpg", "jpeg", "webp", "tga", "tif", "tiff", "exr"],
            support: AssetFormatSupport::Full,
        }
    } else if i == 4 {
        AssetFormatInfo {
            name: "KTX2 / DDS / HDR",
            extensions: &["ktx2", "dds", "hdr"],
            support: AssetFormatSupport::Partial,
        }
    } else if i == 5 {
        AssetFormatInfo {
            name: "PLY / VOX / SVG / IES / LUT",
            extensions: &["ply", "vox", "svg", "ies", "cube", "3dl"],
            support: AssetFormatSupport::Partial,
        }
    } else if i == 6 {
        AssetFormatInfo {
            name: "Collada / 3MF / VTK / LDraw / TTF",
            extensions: &["dae", "3mf", "vtk", "ldr", "dat", "ttf", "otf"],
            support: AssetFormatSupport::DiagnosticOnly,
        }
    } else {
        AssetFormatInfo {
            name: "FBX / USD / USDZ / Rhino / UltraHDR",
            extensions: &["fbx", "usd", "usdz", "3dm", "uhdr"],
            support: AssetFormatSupport::DiagnosticOnly,
        }
    };
    assert(info.extensions@.map_values(|e: &str| e@) =~= format_extensions(i as int));
    info
}

/// `s` without its leading `'.'` characters.
pub open spec fn trim_leading_dots(s: Seq<char>) -> Seq<char>
    decreases s.len(),
{
    if s.len() > 0 && s[0] == '.' {
        trim_leading_dots(s.drop_first())
    } else {
        s
    }
}

/// ASCII lowercase of one character; other characters are unchanged.
pub open spec fn ascii_lower(c: char) -> char {
    if 'A' <= c <= 'Z' {
        ((c as u32) + 32) as char
    } else {
        c
    }
}

/// The extension as the support matrix is searched for it: leading dots
/// removed and ASCII letters lowercased.
pub open spec fn normalize_extension(s: Seq<char>) -> Seq<char> {
    trim_leading_dots(s).map_values(|c: char| ascii_lower(c))
}

/// Lowercases one ASCII letter.
fn lower_ascii_char(c: char) -> (r: char)
    ensures
        r == ascii_lower(c),
{
    if 'A' <= c && c <= 'Z' {
        let b = (c as u8) + 32;
        b as char
    } else {
        c
    }
}

/// Whether the text of `s` is exactly `chars`.
fn str_equals_chars(s: &str, chars: &Vec<char>) -> (b: bool)
    ensures
        b == (s@ == chars@),
{
    let n = s.unicode_len();
    if n != chars.len() {
        return false;
    }
    let mut i: usize = 0;
    while i < n
        invariant
            n == s@.len(),
            n == chars@.len(),
            i <= n,
            forall|j: int| 0 <= j < i ==> s@[j] == chars@[j],
        decreases n - i,
    {
        if s.get_char(i) != chars[i] {
            return false;
        }
        i = i + 1;
    }
    assert(s@ =~= chars@);
    true
}

/// Normalizes an extension: drops leading dots and lowercases ASCII letters.
fn normalized_extension(extension: &str) -> (out: Vec<char>)
    ensures
        out@ == normalize_extension(extension@),
{
    let n = extension.unicode_len();
    let mut start: usize = 0;
    assert(extension@.skip(0) =~= extension@);
    while start < n && extension.get_char(start) == '.'
        invariant
            n == extension@.len(),
            start <= n,
            trim_leading_dots(extension@.skip(start as int)) == trim_leading_dots(extension@),
        decreases n - start,
    {
        proof {
            assert(extension@.skip(start as int).drop_first() =~= extension@.skip(start as int + 1));
        }
        start = start + 1;
    }
    proof {
        let rest = extension@.skip(start as int);
        if rest.len() > 0 {
            assert(rest[0] == extension@[start as int]);
        }
        assert(trim_leading_dots(rest) == rest);
    }
    let mut out: Vec<char> = Vec::new();
    let mut i: usize = start;
    while i < n
        invariant
            n == extension@.len(),
            start <= i <= n,
            out@ == extension@.subrange(start as int, i as int).map_values(|c: char| ascii_lower(c)),
        decreases n - i,
    {
        let c = lower_ascii_char(extension.get_char(i));
        out.push(c);
        i = i + 1;
        assert(out@ =~= extension@.subrange(start as int, i as int).map_values(|c: char| ascii_lower(c)));
    }
    assert(extension@.subrange(start as int, n as int) =~= extension@.skip(start as int));
    out
}

/// Whether `extensions` lists exactly `ext`.
fn lists_extension(extensions: &[&str], ext: &Vec<char>) -> (b: bool)
    ensures
        b == extensions@.map_values(|e: &str| e@).contains(ext@),
{
    let ghost views = extensions@.map_values(|e: &str| e@);
    let mut i: usize = 0;
    while i < extensions.len()
        invariant
            i <= extensions@.len(),
            views == extensions@.map_values(|e: &str| e@),
            forall|j: int| 0 <= j < i ==> views[j] != ext@,
        decreases extensions@.len() - i,
    {
        if str_equals_chars(extensions[i], ext) {
            assert(views[i as int] == ext@);
            return true;
        }
        i = i + 1;
    }
    false
}

/// Returns support information for a path extension, matched without leading
/// dots and without regard to ASCII case; the first row listing the extension
/// wins.
pub fn support_for_extension(extension: &str) -> (info: Option<AssetFormatInfo>)
    ensures
        match info {
            Some(row) => exists|i: int|
                0 <= i < ASSET_FORMAT_COUNT && is_format_row(row, i) && format_extensions(
                    i,
                ).contains(normalize_extension(extension@)) && forall|j: int|
                    0 <= j < i ==> !format_extensions(j).contains(normalize_extension(extension@)),
            None => forall|i: int|
                0 <= i < ASSET_FORMAT_COUNT ==> !format_extensions(i).contains(
                    normalize_extension(extension@),
                ),
        },
{
    let normalized = normalized_extension(extension);
    let mut i: usize = 0;
    while i < ASSET_FORMAT_COUNT
        invariant
            i <= ASSET_FORMAT_COUNT,
            normalized@ == normalize_extension(extension@),
            forall|j: int| 0 <= j < i ==> !format_extensions(j).contains(normalized@),
        decreases ASSET_FORMAT_COUNT - i,
    {
        let row = asset_format(i);
        if lists_extension(row.extensions, &normalized) {
            return Some(row);
        }
        i = i + 1;
    }
    None
}


/// Extensions the loader decodes fully: glTF and GLB scenes, OBJ and STL
/// meshes, and the common image formats.
pub open spec fn fully_decoded_extension(e: Seq<char>) -> bool {
    e == "gltf"@
        || e == "glb"@
        || e == "obj"@
        || e == "stl"@
        || e == "png"@
        || e == "jpg"@
        || e == "jpeg"@
        || e == "webp"@
        || e == "tga"@
        || e == "tif"@
        || e == "tiff"@
        || e == "exr"@
}

/// Extensions of which the loader decodes metadata or a focused subset:
/// GPU texture containers and HDR images, and the point-cloud, voxel, vector,
/// light-profile and colour-table formats.
pub open spec fn partly_decoded_extension(e: Seq<char>) -> bool {
    e == "ktx2"@
        || e == "dds"@
        || e == "hdr"@
        || e == "ply"@
        || e == "vox"@
        || e == "svg"@
        || e == "ies"@
        || e == "cube"@
        || e == "3dl"@
}

/// The support level the loader documents for an extension.
pub open spec fn extension_support(e: Seq<char>) -> AssetFormatSupport {
    if fully_decoded_extension(e) {
        AssetFormatSupport::Full
    } else if partly_decoded_extension(e) {
        AssetFormatSupport::Partial
    } else {
        AssetFormatSupport::DiagnosticOnly
    }
}

/// Every row of the support matrix carries the support level of each
/// extension it lists: glTF, OBJ, STL and image rows are full, texture
/// containers and the point-cloud/vector group partial, the rest diagnostic
/// only.
#[verifier::rlimit(100)]
#[verifier::spinoff_prover]
pub proof fn lemma_format_rows_match_extension_support(i: int, e: Seq<char>)
    requires
        0 <= i < ASSET_FORMAT_COUNT,
        format_extensions(i).contains(e),
    ensures
        format_support(i) == extension_support(e),
{
    let exts = format_extensions(i);
    let k = choose|k: int| 0 <= k < exts.len() && exts[k] == e;
    if i == 0 {
        if k == 0 {
            assert(e == "gltf"@);
        } else if k == 1 {
            assert(e == "glb"@);
        }
    } else if i == 1 {
        if k == 0 {
            assert(e == "obj"@);
        }
    } else if i == 2 {
        if k == 0 {
            assert(e == "stl"@);
        }
    } else if i == 3 {
        if k == 0 {
            assert(e == "png"@);
        } else if k == 1 {
            assert(e == "jpg"@);
        } else if k == 2 {
            assert(e == "jpeg"@);
        } else if k == 3 {
            assert(e == "webp"@);
        } else if k == 4 {
            assert(e == "tga"@);
        } else if k == 5 {
            assert(e == "tif"@);
        } else if k == 6 {
            assert(e == "tiff"@);
        } else if k == 7 {
            assert(e == "exr"@);
        }
    } else if i == 4 {
        if k == 0 {
            assert(e == "ktx2"@);
            assert(extension_support("ktx2"@) == AssetFormatSupport::Partial) by {
                reveal_strlit("ktx2"); reveal_strlit("gltf"); reveal_strlit("glb"); reveal_strlit("obj"); reveal_strlit("stl"); reveal_strlit("png"); reveal_strlit("jpg"); reveal_strlit("jpeg"); reveal_strlit("webp"); reveal_strlit("tga"); reveal_strlit("tif"); reveal_strlit("tiff"); reveal_strlit("exr");
                assert("ktx2"@[0] != "gltf"@[0]);
                assert("ktx2"@.len() != "glb"@.len());
                assert("ktx2"@.len() != "obj"@.len());
                assert("ktx2"@.len() != "stl"@.len());
                assert("ktx2"@.len() != "png"@.len());
                assert("ktx2"@.len() != "jpg"@.len());
                assert("ktx2"@[0] != "jpeg"@[0]);
                assert("ktx2"@[0] != "webp"@[0]);
                assert("ktx2"@.len() != "tga"@.len());
                assert("ktx2"@.len() != "tif"@.len());
                assert("ktx2"@[0] != "tiff"@[0]);
                assert("ktx2"@.len() != "exr"@.len());
            }
        } else if k == 1 {
            assert(e == "dds"@);
            assert(extension_support("dds"@) == AssetFormatSupport::Partial) by {
                reveal_strlit("dds"); reveal_strlit("gltf"); reveal_strlit("glb"); reveal_strlit("obj"); reveal_strlit("stl"); reveal_strlit("png"); reveal_strlit("jpg"); reveal_strlit("jpeg"); reveal_strlit("webp"); reveal_strlit("tga"); reveal_strlit("tif"); reveal_strlit("tiff"); reveal_strlit("exr");
                assert("dds"@.len() != "gltf"@.len());
                assert("dds"@[0] != "glb"@[0]);
                assert("dds"@[0] != "obj"@[0]);
                assert("dds"@[0] != "stl"@[0]);
                assert("dds"@[0] != "png"@[0]);
                assert("dds"@[0] != "jpg"@[0]);
                assert("dds"@.len() != "jpeg"@.len());
                assert("dds"@.len() != "webp"@.len());
                assert("dds"@[0] != "tga"@[0]);
                assert("dds"@[0] != "tif"@[0]);
                assert("dds"@.len() != "tiff"@.len());
                assert("dds"@[0] != "exr"@[0]);
            }
        } else if k == 2 {
            assert(e == "hdr"@);
            assert(extension_support("hdr"@) == AssetFormatSupport::Partial) by {
                reveal_strlit("hdr"); reveal_strlit("gltf"); reveal_strlit("glb"); reveal_strlit("obj"); reveal_strlit("stl"); reveal_strlit("png"); reveal_strlit("jpg"); reveal_strlit("jpeg"); reveal_strlit("webp"); reveal_strlit("tga"); reveal_strlit("tif"); reveal_strlit("tiff"); reveal_strlit("exr");
                assert("hdr"@.len() != "gltf"@.len());
                assert("hdr"@[0] != "glb"@[0]);
                assert("hdr"@[0] != "obj"@[0]);
                assert("hdr"@[0] != "stl"@[0]);
                assert("hdr"@[0] != "png"@[0]);
                assert("hdr"@[0] != "jpg"@[0]);
                assert("hdr"@.len() != "jpeg"@.len());
                assert("hdr"@.len() != "webp"@.len());
                assert("hdr"@[0] != "tga"@[0]);
                assert("hdr"@[0] != "tif"@[0]);
                assert("hdr"@.len() != "tiff"@.len());
                assert("hdr"@[0] != "exr"@[0]);
            }
        }
    } else if i == 5 {
        if k == 0 {
            assert(e == "ply"@);
            assert(extension_support("ply"@) == AssetFormatSupport::Partial) by {
                reveal_strlit("ply"); reveal_strlit("gltf"); reveal_strlit("glb"); reveal_strlit("obj"); reveal_strlit("stl"); reveal_strlit("png"); reveal_strlit("jpg"); reveal_strlit("jpeg"); reveal_strlit("webp"); reveal_strlit("tga"); reveal_strlit("tif"); reveal_strlit("tiff"); reveal_strlit("exr");
                assert("ply"@.len() != "gltf"@.len());
                assert("ply"@[0] != "glb"@[0]);
                assert("ply"@[0] != "obj"@[0]);
                assert("ply"@[0] != "stl"@[0]);
                assert("ply"@[1] != "png"@[1]);
                assert("ply"@[0] != "jpg"@[0]);
                assert("ply"@.len() != "jpeg"@.len());
                assert("ply"@.len() != "webp"@.len());
                assert("ply"@[0] != "tga"@[0]);
                assert("ply"@[0] != "tif"@[0]);
                assert("ply"@.len() != "tiff"@.len());
                assert("ply"@[0] != "exr"@[0]);
            }
        } else if k == 1 {
            assert(e == "vox"@);
            assert(extension_support("vox"@) == AssetFormatSupport::Partial) by {
                reveal_strlit("vox"); reveal_strlit("gltf"); reveal_strlit("glb"); reveal_strlit("obj"); reveal_strlit("stl"); reveal_strlit("png"); reveal_strlit("jpg"); reveal_strlit("jpeg"); reveal_strlit("webp"); reveal_strlit("tga"); reveal_strlit("tif"); reveal_strlit("tiff"); reveal_strlit("exr");
                assert("vox"@.len() != "gltf"@.len());
                assert("vox"@[0] != "glb"@[0]);
                assert("vox"@[0] != "obj"@[0]);
                assert("vox"@[0] != "stl"@[0]);
                assert("vox"@[0] != "png"@[0]);
                assert("vox"@[0] != "jpg"@[0]);
                assert("vox"@.len() != "jpeg"@.len());
                assert("vox"@.len() != "webp"@.len());
                assert("vox"@[0] != "tga"@[0]);
                assert("vox"@[0] != "tif"@[0]);
                assert("vox"@.len() != "tiff"@.len());
                assert("vox"@[0] != "exr"@[0]);
            }
        } else if k == 2 {
            assert(e == "svg"@);
            assert(extension_support("svg"@) == AssetFormatSupport::Partial) by {
                reveal_strlit("svg"); reveal_strlit("gltf"); reveal_strlit("glb"); reveal_strlit("obj"); reveal_strlit("stl"); reveal_strlit("png"); reveal_strlit("jpg"); reveal_strlit("jpeg"); reveal_strlit("webp"); reveal_strlit("tga"); reveal_strlit("tif"); reveal_strlit("tiff"); reveal_strlit("exr");
                assert("svg"@.len() != "gltf"@.len());
                assert("svg"@[0] != "glb"@[0]);
                assert("svg"@[0] != "obj"@[0]);
                assert("svg"@[1] != "stl"@[1]);
                assert("svg"@[0] != "png"@[0]);
                assert("svg"@[0] != "jpg"@[0]);
                assert("svg"@.len() != "jpeg"@.len());
                assert("svg"@.len() != "webp"@.len());
                assert("svg"@[0] != "tga"@[0]);
                assert("svg"@[0] != "tif"@[0]);
                assert("svg"@.len() != "tiff"@.len());
                assert("svg"@[0] != "exr"@[0]);
            }
        } else if k == 3 {
            assert(e == "ies"@);
            assert(extension_support("ies"@) == AssetFormatSupport::Partial) by {
                reveal_strlit("ies"); reveal_strlit("gltf"); reveal_strlit("glb"); reveal_strlit("obj"); reveal_strlit("stl"); reveal_strlit("png"); reveal_strlit("jpg"); reveal_strlit("jpeg"); reveal_strlit("webp"); reveal_strlit("tga"); reveal_strlit("tif"); reveal_strlit("tiff"); reveal_strlit("exr");
                assert("ies"@.len() != "gltf"@.len());
                assert("ies"@[0] != "glb"@[0]);
                assert("ies"@[0] != "obj"@[0]);
                assert("ies"@[0] != "stl"@[0]);
                assert("ies"@[0] != "png"@[0]);
                assert("ies"@[0] != "jpg"@[0]);
                assert("ies"@.len() != "jpeg"@.len());
                assert("ies"@.len() != "webp"@.len());
                assert("ies"@[0] != "tga"@[0]);
                assert("ies"@[0] != "tif"@[0]);
                assert("ies"@.len() != "tiff"@.len());
                assert("ies"@[0] != "exr"@[0]);
            }
        } else if k == 4 {
            assert(e == "cube"@);
            assert(extension_support("cube"@) == AssetFormatSupport::Partial) by {
                reveal_strlit("cube"); reveal_strlit("gltf"); reveal_strlit("glb"); reveal_strlit("obj"); reveal_strlit("stl"); reveal_strlit("png"); reveal_strlit("jpg"); reveal_strlit("jpeg"); reveal_strlit("webp"); reveal_strlit("tga"); reveal_strlit("tif"); reveal_strlit("tiff"); reveal_strlit("exr");
                assert("cube"@[0] != "gltf"@[0]);
                assert("cube"@.len() != "glb"@.len());
                assert("cube"@.len() != "obj"@.len());
                assert("cube"@.len() != "stl"@.len());
                assert("cube"@.len() != "png"@.len());
                assert("cube"@.len() != "jpg"@.len());
                assert("cube"@[0] != "jpeg"@[0]);
                assert("cube"@[0] != "webp"@[0]);
                assert("cube"@.len() != "tga"@.len());
                assert("cube"@.len() != "tif"@.len());
                assert("cube"@[0] != "tiff"@[0]);
                assert("cube"@.len() != "exr"@.len());
            }
        } else if k == 5 {
            assert(e == "3dl"@);
            assert(extension_support("3dl"@) == AssetFormatSupport::Partial) by {
                reveal_strlit("3dl"); reveal_strlit("gltf"); reveal_strlit("glb"); reveal_strlit("obj"); reveal_strlit("stl"); reveal_strlit("png"); reveal_strlit("jpg"); reveal_strlit("jpeg"); reveal_strlit("webp"); reveal_strlit("tga"); reveal_strlit("tif"); reveal_strlit("tiff"); reveal_strlit("exr");
                assert("3dl"@.len() != "gltf"@.len());
                assert("3dl"@[0] != "glb"@[0]);
                assert("3dl"@[0] != "obj"@[0]);
                assert("3dl"@[0] != "stl"@[0]);
                assert("3dl"@[0] != "png"@[0]);
                assert("3dl"@[0] != "jpg"@[0]);
                assert("3dl"@.len() != "jpeg"@.len());
                assert("3dl"@.len() != "webp"@.len());
                assert("3dl"@[0] != "tga"@[0]);
                assert("3dl"@[0] != "tif"@[0]);
                assert("3dl"@.len() != "tiff"@.len());
                assert("3dl"@[0] != "exr"@[0]);
            }
        }
    } else if i == 6 {
        if k == 0 {
            assert(e == "dae"@);
            assert(extension_support("dae"@) == AssetFormatSupport::DiagnosticOnly) by {
                reveal_strlit("dae"); reveal_strlit("gltf"); reveal_strlit("glb"); reveal_strlit("obj"); reveal_strlit("stl"); reveal_strlit("png"); reveal_strlit("jpg"); reveal_strlit("jpeg"); reveal_strlit("webp"); reveal_strlit("tga"); reveal_strlit("tif"); reveal_strlit("tiff"); reveal_strlit("exr"); reveal_strlit("ktx2"); reveal_strlit("dds"); reveal_strlit("hdr"); reveal_strlit("ply"); reveal_strlit("vox"); reveal_strlit("svg"); reveal_strlit("ies"); reveal_strlit("cube"); reveal_strlit("3dl");
                assert("dae"@.len() != "gltf"@.len());
                assert("dae"@[0] != "glb"@[0]);
                assert("dae"@[0] != "obj"@[0]);
                assert("dae"@[0] != "stl"@[0]);
                assert("dae"@[0] != "png"@[0]);
                assert("dae"@[0] != "jpg"@[0]);
                assert("dae"@.len() != "jpeg"@.len());
                assert("dae"@.len() != "webp"@.len());
                assert("dae"@[0] != "tga"@[0]);
                assert("dae"@[0] != "tif"@[0]);
                assert("dae"@.len() != "tiff"@.len());
                assert("dae"@[0] != "exr"@[0]);
                assert("dae"@.len() != "ktx2"@.len());
                assert("dae"@[1] != "dds"@[1]);
                assert("dae"@[0] != "hdr"@[0]);
                assert("dae"@[0] != "ply"@[0]);
                assert("dae"@[0] != "vox"@[0]);
                assert("dae"@[0] != "svg"@[0]);
                assert("dae"@[0] != "ies"@[0]);
                assert("dae"@.len() != "cube"@.len());
                assert("dae"@[0] != "3dl"@[0]);
            }
        } else if k == 1 {
            assert(e == "3mf"@);
            assert(extension_support("3mf"@) == AssetFormatSupport::DiagnosticOnly) by {
                reveal_strlit("3mf"); reveal_strlit("gltf"); reveal_strlit("glb"); reveal_strlit("obj"); reveal_strlit("stl"); reveal_strlit("png"); reveal_strlit("jpg"); reveal_strlit("jpeg"); reveal_strlit("webp"); reveal_strlit("tga"); reveal_strlit("tif"); reveal_strlit("tiff"); reveal_strlit("exr"); reveal_strlit("ktx2"); reveal_strlit("dds"); reveal_strlit("hdr"); reveal_strlit("ply"); reveal_strlit("vox"); reveal_strlit("svg"); reveal_strlit("ies"); reveal_strlit("cube"); reveal_strlit("3dl");
                assert("3mf"@.len() != "gltf"@.len());
                assert("3mf"@[0] != "glb"@[0]);
                assert("3mf"@[0] != "obj"@[0]);
                assert("3mf"@[0] != "stl"@[0]);
                assert("3mf"@[0] != "png"@[0]);
                assert("3mf"@[0] != "jpg"@[0]);
                assert("3mf"@.len() != "jpeg"@.len());
                assert("3mf"@.len() != "webp"@.len());
                assert("3mf"@[0] != "tga"@[0]);
                assert("3mf"@[0] != "tif"@[0]);
                assert("3mf"@.len() != "tiff"@.len());
                assert("3mf"@[0] != "exr"@[0]);
                assert("3mf"@.len() != "ktx2"@.len());
                assert("3mf"@[0] != "dds"@[0]);
                assert("3mf"@[0] != "hdr"@[0]);
                assert("3mf"@[0] != "ply"@[0]);
                assert("3mf"@[0] != "vox"@[0]);
                assert("3mf"@[0] != "svg"@[0]);
                assert("3mf"@[0] != "ies"@[0]);
                assert("3mf"@.len() != "cube"@.len());
                assert("3mf"@[1] != "3dl"@[1]);
            }
        } else if k == 2 {
            assert(e == "vtk"@);
            assert(extension_support("vtk"@) == AssetFormatSupport::DiagnosticOnly) by {
                reveal_strlit("vtk"); reveal_strlit("gltf"); reveal_strlit("glb"); reveal_strlit("obj"); reveal_strlit("stl"); reveal_strlit("png"); reveal_strlit("jpg"); reveal_strlit("jpeg"); reveal_strlit("webp"); reveal_strlit("tga"); reveal_strlit("tif"); reveal_strlit("tiff"); reveal_strlit("exr"); reveal_strlit("ktx2"); reveal_strlit("dds"); reveal_strlit("hdr"); reveal_strlit("ply"); reveal_strlit("vox"); reveal_strlit("svg"); reveal_strlit("ies"); reveal_strlit("cube"); reveal_strlit("3dl");
                assert("vtk"@.len() != "gltf"@.len());
                assert("vtk"@[0] != "glb"@[0]);
                assert("vtk"@[0] != "obj"@[0]);
                assert("vtk"@[0] != "stl"@[0]);
                assert("vtk"@[0] != "png"@[0]);
                assert("vtk"@[0] != "jpg"@[0]);
                assert("vtk"@.len() != "jpeg"@.len());
                assert("vtk"@.len() != "webp"@.len());
                assert("vtk"@[0] != "tga"@[0]);
                assert("vtk"@[0] != "tif"@[0]);
                assert("vtk"@.len() != "tiff"@.len());
                assert("vtk"@[0] != "exr"@[0]);
                assert("vtk"@.len() != "ktx2"@.len());
                assert("vtk"@[0] != "dds"@[0]);
                assert("vtk"@[0] != "hdr"@[0]);
                assert("vtk"@[0] != "ply"@[0]);
                assert("vtk"@[1] != "vox"@[1]);
                assert("vtk"@[0] != "svg"@[0]);
                assert("vtk"@[0] != "ies"@[0]);
                assert("vtk"@.len() != "cube"@.len());
                assert("vtk"@[0] != "3dl"@[0]);
            }
        } else if k == 3 {
            assert(e == "ldr"@);
            assert(extension_support("ldr"@) == AssetFormatSupport::DiagnosticOnly) by {
                reveal_strlit("ldr"); reveal_strlit("gltf"); reveal_strlit("glb"); reveal_strlit("obj"); reveal_strlit("stl"); reveal_strlit("png"); reveal_strlit("jpg"); reveal_strlit("jpeg"); reveal_strlit("webp"); reveal_strlit("tga"); reveal_strlit("tif"); reveal_strlit("tiff"); reveal_strlit("exr"); reveal_strlit("ktx2"); reveal_strlit("dds"); reveal_strlit("hdr"); reveal_strlit("ply"); reveal_strlit("vox"); reveal_strlit("svg"); reveal_strlit("ies"); reveal_strlit("cube"); reveal_strlit("3dl");
                assert("ldr"@.len() != "gltf"@.len());
                assert("ldr"@[0] != "glb"@[0]);
                assert("ldr"@[0] != "obj"@[0]);
                assert("ldr"@[0] != "stl"@[0]);
                assert("ldr"@[0] != "png"@[0]);
                assert("ldr"@[0] != "jpg"@[0]);
                assert("ldr"@.len() != "jpeg"@.len());
                assert("ldr"@.len() != "webp"@.len());
                assert("ldr"@[0] != "tga"@[0]);
                assert("ldr"@[0] != "tif"@[0]);
                assert("ldr"@.len() != "tiff"@.len());
                assert("ldr"@[0] != "exr"@[0]);
                assert("ldr"@.len() != "ktx2"@.len());
                assert("ldr"@[0] != "dds"@[0]);
                assert("ldr"@[0] != "hdr"@[0]);
                assert("ldr"@[0] != "ply"@[0]);
                assert("ldr"@[0] != "vox"@[0]);
                assert("ldr"@[0] != "svg"@[0]);
                assert("ldr"@[0] != "ies"@[0]);
                assert("ldr"@.len() != "cube"@.len());
                assert("ldr"@[0] != "3dl"@[0]);
            }
        } else if k == 4 {
            assert(e == "dat"@);
            assert(extension_support("dat"@) == AssetFormatSupport::DiagnosticOnly) by {
                reveal_strlit("dat"); reveal_strlit("gltf"); reveal_strlit("glb"); reveal_strlit("obj"); reveal_strlit("stl"); reveal_strlit("png"); reveal_strlit("jpg"); reveal_strlit("jpeg"); reveal_strlit("webp"); reveal_strlit("tga"); reveal_strlit("tif"); reveal_strlit("tiff"); reveal_strlit("exr"); reveal_strlit("ktx2"); reveal_strlit("dds"); reveal_strlit("hdr"); reveal_strlit("ply"); reveal_strlit("vox"); reveal_strlit("svg"); reveal_strlit("ies"); reveal_strlit("cube"); reveal_strlit("3dl");
                assert("dat"@.len() != "gltf"@.len());
                assert("dat"@[0] != "glb"@[0]);
                assert("dat"@[0] != "obj"@[0]);
                assert("dat"@[0] != "stl"@[0]);
                assert("dat"@[0] != "png"@[0]);
                assert("dat"@[0] != "jpg"@[0]);
                assert("dat"@.len() != "jpeg"@.len());
                assert("dat"@.len() != "webp"@.len());
                assert("dat"@[0] != "tga"@[0]);
                assert("dat"@[0] != "tif"@[0]);
                assert("dat"@.len() != "tiff"@.len());
                assert("dat"@[0] != "exr"@[0]);
                assert("dat"@.len() != "ktx2"@.len());
                assert("dat"@[1] != "dds"@[1]);
                assert("dat"@[0] != "hdr"@[0]);
                assert("dat"@[0] != "ply"@[0]);
                assert("dat"@[0] != "vox"@[0]);
                assert("dat"@[0] != "svg"@[0]);
                assert("dat"@[0] != "ies"@[0]);
                assert("dat"@.len() != "cube"@.len());
                assert("dat"@[0] != "3dl"@[0]);
            }
        } else if k == 5 {
            assert(e == "ttf"@);
            assert(extension_support("ttf"@) == AssetFormatSupport::DiagnosticOnly) by {
                reveal_strlit("ttf"); reveal_strlit("gltf"); reveal_strlit("glb"); reveal_strlit("obj"); reveal_strlit("stl"); reveal_strlit("png"); reveal_strlit("jpg"); reveal_strlit("jpeg"); reveal_strlit("webp"); reveal_strlit("tga"); reveal_strlit("tif"); reveal_strlit("tiff"); reveal_strlit("exr"); reveal_strlit("ktx2"); reveal_strlit("dds"); reveal_strlit("hdr"); reveal_strlit("ply"); reveal_strlit("vox"); reveal_strlit("svg"); reveal_strlit("ies"); reveal_strlit("cube"); reveal_strlit("3dl");
                assert("ttf"@.len() != "gltf"@.len());
                assert("ttf"@[0] != "glb"@[0]);
                assert("ttf"@[0] != "obj"@[0]);
                assert("ttf"@[0] != "stl"@[0]);
                assert("ttf"@[0] != "png"@[0]);
                assert("ttf"@[0] != "jpg"@[0]);
                assert("ttf"@.len() != "jpeg"@.len());
                assert("ttf"@.len() != "webp"@.len());
                assert("ttf"@[1] != "tga"@[1]);
                assert("ttf"@[1] != "tif"@[1]);
                assert("ttf"@.len() != "tiff"@.len());
                assert("ttf"@[0] != "exr"@[0]);
                assert("ttf"@.len() != "ktx2"@.len());
                assert("ttf"@[0] != "dds"@[0]);
                assert("ttf"@[0] != "hdr"@[0]);
                assert("ttf"@[0] != "ply"@[0]);
                assert("ttf"@[0] != "vox"@[0]);
                assert("ttf"@[0] != "svg"@[0]);
                assert("ttf"@[0] != "ies"@[0]);
                assert("ttf"@.len() != "cube"@.len());
                assert("ttf"@[0] != "3dl"@[0]);
            }
        } else if k == 6 {
            assert(e == "otf"@);
            assert(extension_support("otf"@) == AssetFormatSupport::DiagnosticOnly) by {
                reveal_strlit("otf"); reveal_strlit("gltf"); reveal_strlit("glb"); reveal_strlit("obj"); reveal_strlit("stl"); reveal_strlit("png"); reveal_strlit("jpg"); reveal_strlit("jpeg"); reveal_strlit("webp"); reveal_strlit("tga"); reveal_strlit("tif"); reveal_strlit("tiff"); reveal_strlit("exr"); reveal_strlit("ktx2"); reveal_strlit("dds"); reveal_strlit("hdr"); reveal_strlit("ply"); reveal_strlit("vox"); reveal_strlit("svg"); reveal_strlit("ies"); reveal_strlit("cube"); reveal_strlit("3dl");
                assert("otf"@.len() != "gltf"@.len());
                assert("otf"@[0] != "glb"@[0]);
                assert("otf"@[1] != "obj"@[1]);
                assert("otf"@[0] != "stl"@[0]);
                assert("otf"@[0] != "png"@[0]);
                assert("otf"@[0] != "jpg"@[0]);
                assert("otf"@.len() != "jpeg"@.len());
                assert("otf"@.len() != "webp"@.len());
                assert("otf"@[0] != "tga"@[0]);
                assert("otf"@[0] != "tif"@[0]);
                assert("otf"@.len() != "tiff"@.len());
                assert("otf"@[0] != "exr"@[0]);
                assert("otf"@.len() != "ktx2"@.len());
                assert("otf"@[0] != "dds"@[0]);
                assert("otf"@[0] != "hdr"@[0]);
                assert("otf"@[0] != "ply"@[0]);
                assert("otf"@[0] != "vox"@[0]);
                assert("otf"@[0] != "svg"@[0]);
                assert("otf"@[0] != "ies"@[0]);
                assert("otf"@.len() != "cube"@.len());
                assert("otf"@[0] != "3dl"@[0]);
            }
        }
    } else if i == 7 {
        if k == 0 {
            assert(e == "fbx"@);
            assert(extension_support("fbx"@) == AssetFormatSupport::DiagnosticOnly) by {
                reveal_strlit("fbx"); reveal_strlit("gltf"); reveal_strlit("glb"); reveal_strlit("obj"); reveal_strlit("stl"); reveal_strlit("png"); reveal_strlit("jpg"); reveal_strlit("jpeg"); reveal_strlit("webp"); reveal_strlit("tga"); reveal_strlit("tif"); reveal_strlit("tiff"); reveal_strlit("exr"); reveal_strlit("ktx2"); reveal_strlit("dds"); reveal_strlit("hdr"); reveal_strlit("ply"); reveal_strlit("vox"); reveal_strlit("svg"); reveal_strlit("ies"); reveal_strlit("cube"); reveal_strlit("3dl");
                assert("fbx"@.len() != "gltf"@.len());
                assert("fbx"@[0] != "glb"@[0]);
                assert("fbx"@[0] != "obj"@[0]);
                assert("fbx"@[0] != "stl"@[0]);
                assert("fbx"@[0] != "png"@[0]);
                assert("fbx"@[0] != "jpg"@[0]);
                assert("fbx"@.len() != "jpeg"@.len());
                assert("fbx"@.len() != "webp"@.len());
                assert("fbx"@[0] != "tga"@[0]);
                assert("fbx"@[0] != "tif"@[0]);
                assert("fbx"@.len() != "tiff"@.len());
                assert("fbx"@[0] != "exr"@[0]);
                assert("fbx"@.len() != "ktx2"@.len());
                assert("fbx"@[0] != "dds"@[0]);
                assert("fbx"@[0] != "hdr"@[0]);
                assert("fbx"@[0] != "ply"@[0]);
                assert("fbx"@[0] != "vox"@[0]);
                assert("fbx"@[0] != "svg"@[0]);
                assert("fbx"@[0] != "ies"@[0]);
                assert("fbx"@.len() != "cube"@.len());
                assert("fbx"@[0] != "3dl"@[0]);
            }
        } else if k == 1 {
            assert(e == "usd"@);
            assert(extension_support("usd"@) == AssetFormatSupport::DiagnosticOnly) by {
                reveal_strlit("usd"); reveal_strlit("gltf"); reveal_strlit("glb"); reveal_strlit("obj"); reveal_strlit("stl"); reveal_strlit("png"); reveal_strlit("jpg"); reveal_strlit("jpeg"); reveal_strlit("webp"); reveal_strlit("tga"); reveal_strlit("tif"); reveal_strlit("tiff"); reveal_strlit("exr"); reveal_strlit("ktx2"); reveal_strlit("dds"); reveal_strlit("hdr"); reveal_strlit("ply"); reveal_strlit("vox"); reveal_strlit("svg"); reveal_strlit("ies"); reveal_strlit("cube"); reveal_strlit("3dl");
                assert("usd"@.len() != "gltf"@.len());
                assert("usd"@[0] != "glb"@[0]);
                assert("usd"@[0] != "obj"@[0]);
                assert("usd"@[0] != "stl"@[0]);
                assert("usd"@[0] != "png"@[0]);
                assert("usd"@[0] != "jpg"@[0]);
                assert("usd"@.len() != "jpeg"@.len());
                assert("usd"@.len() != "webp"@.len());
                assert("usd"@[0] != "tga"@[0]);
                assert("usd"@[0] != "tif"@[0]);
                assert("usd"@.len() != "tiff"@.len());
                assert("usd"@[0] != "exr"@[0]);
                assert("usd"@.len() != "ktx2"@.len());
                assert("usd"@[0] != "dds"@[0]);
                assert("usd"@[0] != "hdr"@[0]);
                assert("usd"@[0] != "ply"@[0]);
                assert("usd"@[0] != "vox"@[0]);
                assert("usd"@[0] != "svg"@[0]);
                assert("usd"@[0] != "ies"@[0]);
                assert("usd"@.len() != "cube"@.len());
                assert("usd"@[0] != "3dl"@[0]);
            }
        } else if k == 2 {
            assert(e == "usdz"@);
            assert(extension_support("usdz"@) == AssetFormatSupport::DiagnosticOnly) by {
                reveal_strlit("usdz"); reveal_strlit("gltf"); reveal_strlit("glb"); reveal_strlit("obj"); reveal_strlit("stl"); reveal_strlit("png"); reveal_strlit("jpg"); reveal_strlit("jpeg"); reveal_strlit("webp"); reveal_strlit("tga"); reveal_strlit("tif"); reveal_strlit("tiff"); reveal_strlit("exr"); reveal_strlit("ktx2"); reveal_strlit("dds"); reveal_strlit("hdr"); reveal_strlit("ply"); reveal_strlit("vox"); reveal_strlit("svg"); reveal_strlit("ies"); reveal_strlit("cube"); reveal_strlit("3dl");
                assert("usdz"@[0] != "gltf"@[0]);
                assert("usdz"@.len() != "glb"@.len());
                assert("usdz"@.len() != "obj"@.len());
                assert("usdz"@.len() != "stl"@.len());
                assert("usdz"@.len() != "png"@.len());
                assert("usdz"@.len() != "jpg"@.len());
                assert("usdz"@[0] != "jpeg"@[0]);
                assert("usdz"@[0] != "webp"@[0]);
                assert("usdz"@.len() != "tga"@.len());
                assert("usdz"@.len() != "tif"@.len());
                assert("usdz"@[0] != "tiff"@[0]);
                assert("usdz"@.len() != "exr"@.len());
                assert("usdz"@[0] != "ktx2"@[0]);
                assert("usdz"@.len() != "dds"@.len());
                assert("usdz"@.len() != "hdr"@.len());
                assert("usdz"@.len() != "ply"@.len());
                assert("usdz"@.len() != "vox"@.len());
                assert("usdz"@.len() != "svg"@.len());
                assert("usdz"@.len() != "ies"@.len());
                assert("usdz"@[0] != "cube"@[0]);
                assert("usdz"@.len() != "3dl"@.len());
            }
        } else if k == 3 {
            assert(e == "3dm"@);
            assert(extension_support("3dm"@) == AssetFormatSupport::DiagnosticOnly) by {
                reveal_strlit("3dm"); reveal_strlit("gltf"); reveal_strlit("glb"); reveal_strlit("obj"); reveal_strlit("stl"); reveal_strlit("png"); reveal_strlit("jpg"); reveal_strlit("jpeg"); reveal_strlit("webp"); reveal_strlit("tga"); reveal_strlit("tif"); reveal_strlit("tiff"); reveal_strlit("exr"); reveal_strlit("ktx2"); reveal_strlit("dds"); reveal_strlit("hdr"); reveal_strlit("ply"); reveal_strlit("vox"); reveal_strlit("svg"); reveal_strlit("ies"); reveal_strlit("cube"); reveal_strlit("3dl");
                assert("3dm"@.len() != "gltf"@.len());
                assert("3dm"@[0] != "glb"@[0]);
                assert("3dm"@[0] != "obj"@[0]);
                assert("3dm"@[0] != "stl"@[0]);
                assert("3dm"@[0] != "png"@[0]);
                assert("3dm"@[0] != "jpg"@[0]);
                assert("3dm"@.len() != "jpeg"@.len());
                assert("3dm"@.len() != "webp"@.len());
                assert("3dm"@[0] != "tga"@[0]);
                assert("3dm"@[0] != "tif"@[0]);
                assert("3dm"@.len() != "tiff"@.len());
                assert("3dm"@[0] != "exr"@[0]);
                assert("3dm"@.len() != "ktx2"@.len());
                assert("3dm"@[0] != "dds"@[0]);
                assert("3dm"@[0] != "hdr"@[0]);
                assert("3dm"@[0] != "ply"@[0]);
                assert("3dm"@[0] != "vox"@[0]);
                assert("3dm"@[0] != "svg"@[0]);
                assert("3dm"@[0] != "ies"@[0]);
                assert("3dm"@.len() != "cube"@.len());
                assert("3dm"@[2] != "3dl"@[2]);
            }
        } else if k == 4 {
            assert(e == "uhdr"@);
            assert(extension_support("uhdr"@) == AssetFormatSupport::DiagnosticOnly) by {
                reveal_strlit("uhdr"); reveal_strlit("gltf"); reveal_strlit("glb"); reveal_strlit("obj"); reveal_strlit("stl"); reveal_strlit("png"); reveal_strlit("jpg"); reveal_strlit("jpeg"); reveal_strlit("webp"); reveal_strlit("tga"); reveal_strlit("tif"); reveal_strlit("tiff"); reveal_strlit("exr"); reveal_strlit("ktx2"); reveal_strlit("dds"); reveal_strlit("hdr"); reveal_strlit("ply"); reveal_strlit("vox"); reveal_strlit("svg"); reveal_strlit("ies"); reveal_strlit("cube"); reveal_strlit("3dl");
                assert("uhdr"@[0] != "gltf"@[0]);
                assert("uhdr"@.len() != "glb"@.len());
                assert("uhdr"@.len() != "obj"@.len());
                assert("uhdr"@.len() != "stl"@.len());
                assert("uhdr"@.len() != "png"@.len());
                assert("uhdr"@.len() != "jpg"@.len());
                assert("uhdr"@[0] != "jpeg"@[0]);
                assert("uhdr"@[0] != "webp"@[0]);
                assert("uhdr"@.len() != "tga"@.len());
                assert("uhdr"@.len() != "tif"@.len());
                assert("uhdr"@[0] != "tiff"@[0]);
                assert("uhdr"@.len() != "exr"@.len());
                assert("uhdr"@[0] != "ktx2"@[0]);
                assert("uhdr"@.len() != "dds"@.len());
                assert("uhdr"@.len() != "hdr"@.len());
                assert("uhdr"@.len() != "ply"@.len());
                assert("uhdr"@.len() != "vox"@.len());
                assert("uhdr"@.len() != "svg"@.len());
                assert("uhdr"@.len() != "ies"@.len());
                assert("uhdr"@[0] != "cube"@[0]);
                assert("uhdr"@.len() != "3dl"@.len());
            }
        }
    }
}

} // verus!
