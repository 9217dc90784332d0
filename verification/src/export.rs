//! Text helpers used by the asset exporters.

use vstd::prelude::*;

#[allow(unused_imports)]
use vstd::string::*;

verus! {

/// How one character is written inside a JSON string literal.
pub open spec fn json_escape_char(c: char) -> Seq<char> {
    if c == '"' {
        seq!['\\', '"']
    } else if c == '\\' {
        seq!['\\', '\\']
    } else if c == '\n' {
        seq!['\\', 'n']
    } else if c == '\r' {
        seq!['\\', 'r']
    } else if c == '\t' {
        seq!['\\', 't']
    } else {
        seq![c]
    }
}

/// `s` with every character escaped for a JSON string literal.
pub open spec fn json_escaped(s: Seq<char>) -> Seq<char>
    decreases s.len(),
{
    if s.len() == 0 {
        Seq::empty()
    } else {
        json_escaped(s.drop_last()) + json_escape_char(s.last())
    }
}

/// Whether a character may stand unchanged in an exported label.
pub open spec fn label_char_allowed(c: char) -> bool {
    ('a' <= c <= 'z') || ('A' <= c <= 'Z') || ('0' <= c <= '9') || c == '_' || c == '-'
}

/// `s` with every character other than ASCII letters, digits, `_` and `-`
/// replaced by `_`.
pub open spec fn sanitized(s: Seq<char>) -> Seq<char> {
    s.map_values(|c: char| if label_char_allowed(c) { c } else { '_' })
}

/// The triangle index list of a mesh: its own indices, or `0..vertex_count`
/// (as `u32`) when it has none.
pub open spec fn triangle_indices(vertex_count: nat, indices: Seq<u32>) -> Seq<u32> {
    if indices.len() == 0 {
        Seq::new(vertex_count, |i: int| i as u32)
    } else {
        indices
    }
}

/// Appends one character to a string by `String::push`, whose documented
/// effect is taken as given: the character sequence gains `c` at its end.
#[verifier::external_body]
fn push_char(out: &mut String, c: char)
    ensures
        final(out)@ == old(out)@.push(c),
{
    out.push(c);
}

/// Escapes quotes, backslashes, and newline/carriage-return/tab characters
/// for embedding in a JSON string literal.
pub fn escape_json(value: &str) -> (escaped: String)
    ensures
        escaped@ == json_escaped(value@),
{
    let n = value.unicode_len();
    let mut out = String::new();
    let mut i: usize = 0;
    while i < n
        invariant
            n == value@.len(),
            i <= n,
            out@ == json_escaped(value@.take(i as int)),
        decreases n - i,
    {
        let c = value.get_char(i);
        proof {
            assert(value@.take(i as int + 1).drop_last() =~= value@.take(i as int));
        }
        let ghost before = out@;
        if c == '"' {
            push_char(&mut out, '\\');
            push_char(&mut out, '"');
        } else if c == '\\' {
            push_char(&mut out, '\\');
            push_char(&mut out, '\\');
        } else if c == '\n' {
            push_char(&mut out, '\\');
            push_char(&mut out, 'n');
        } else if c == '\r' {
            push_char(&mut out, '\\');
            push_char(&mut out, 'r');
        } else if c == '\t' {
            push_char(&mut out, '\\');
            push_char(&mut out, 't');
        } else {
            push_char(&mut out, c);
        }
        assert(out@ =~= before + json_escape_char(c));
        i = i + 1;
    }
    assert(value@.take(n as int) =~= value@);
    out
}

/// Replaces every character other than ASCII letters, digits, `_` and `-`
/// with `_`.
pub fn sanitize_label(value: &str) -> (label: String)
    ensures
        label@ == sanitized(value@),
{
    let n = value.unicode_len();
    let mut out = String::new();
    let mut i: usize = 0;
    while i < n
        invariant
            n == value@.len(),
            i <= n,
            out@ == sanitized(value@.take(i as int)),
        decreases n - i,
    {
        let c = value.get_char(i);
        let allowed = ('a' <= c && c <= 'z') || ('A' <= c && c <= 'Z') || ('0' <= c && c <= '9')
            || c == '_' || c == '-';
        if allowed {
            push_char(&mut out, c);
        } else {
            push_char(&mut out, '_');
        }
        i = i + 1;
        assert(out@ =~= sanitized(value@.take(i as int)));
    }
    assert(value@.take(n as int) =~= value@);
    out
}

/// Returns the triangle index list of a mesh with `vertex_count` vertices:
/// its own `indices`, or `0..vertex_count` when it has none.
pub fn effective_indices(vertex_count: usize, indices: &[u32]) -> (out: Vec<u32>)
    ensures
        out@ == triangle_indices(vertex_count as nat, indices@),
{
    let mut out: Vec<u32> = Vec::new();
    if indices.len() == 0 {
        let mut i: usize = 0;
        while i < vertex_count
            invariant
                i <= vertex_count,
                out@ == Seq::new(i as nat, |k: int| k as u32),
            decreases vertex_count - i,
        {
            out.push(i as u32);
            i = i + 1;
            assert(out@ =~= Seq::new(i as nat, |k: int| k as u32));
        }
    } else {
        let mut i: usize = 0;
        while i < indices.len()
            invariant
                i <= indices@.len(),
                out@ == indices@.take(i as int),
            decreases indices@.len() - i,
        {
            out.push(indices[i]);
            i = i + 1;
            assert(out@ =~= indices@.take(i as int));
        }
        assert(indices@.take(indices@.len() as int) =~= indices@);
    }
    out
}

/// The counts of an asset package that the summary exporters write.
#[derive(Clone, Debug, PartialEq, Eq)]
pub struct PackageSummary {
    /// Human-readable package label.
    pub label: String,
    /// Imported mesh geometries.
    pub meshes: usize,
    /// PBR-compatible materials.
    pub materials: usize,
    /// 2D textures.
    pub textures: usize,
    /// Cube textures.
    pub texture_cubes: usize,
    /// Imported animation clips.
    pub animations: usize,
    /// Imported skins.
    pub skins: usize,
    /// Imported lights.
    pub lights: usize,
    /// Imported cameras.
    pub cameras: usize,
    /// Import diagnostics.
    pub diagnostics: usize,
}

/// The ASCII digit for `d` in `0..10`.
pub open spec fn digit_char(d: nat) -> char {
    ((d + 48) as u32) as char
}

/// Decimal digits of `n`, most significant first.
pub open spec fn decimal(n: nat) -> Seq<char>
    decreases n,
{
    if n < 10 {
        seq![digit_char(n)]
    } else {
        decimal(n / 10).push(digit_char(n % 10))
    }
}

/// Appends the decimal digits of `n`.
fn push_decimal(out: &mut String, n: usize)
    ensures
        final(out)@ == old(out)@ + decimal(n as nat),
    decreases n,
{
    if n >= 10 {
        push_decimal(out, n / 10);
    }
    let d = (n % 10) as u8;
    let c = (d + 48) as char;
    assert(c == digit_char((n % 10) as nat));
    push_char(out, c);
    proof {
        if n >= 10 {
            assert(final(out)@ =~= old(out)@ + decimal(n as nat));
        } else {
            assert(final(out)@ =~= old(out)@ + decimal(n as nat));
        }
    }
}

/// Appends `s` to `out`.
fn push_str(out: &mut String, s: &str)
    ensures
        final(out)@ == old(out)@ + s@,
{
    out.append(s);
}

/// Appends `s` escaped for a JSON string literal.
fn push_escaped(out: &mut String, s: &str)
    ensures
        final(out)@ == old(out)@ + json_escaped(s@),
{
    let escaped = escape_json(s);
    out.append(escaped.as_str());
}

/// The compact glTF 2.0 document describing a package.
pub open spec fn gltf_summary_text(summary: PackageSummary) -> Seq<char> {
    "{\"asset\":{\"version\":\"2.0\",\"generator\":\"scenix-loader 1.3\"},\"extras\":{\"label\":\""@
        + json_escaped(summary.label@) + "\",\"meshes\":"@ + decimal(summary.meshes as nat)
        + ",\"materials\":"@ + decimal(summary.materials as nat) + ",\"textures\":"@ + decimal(
        (summary.textures + summary.texture_cubes) as nat,
    ) + ",\"animations\":"@ + decimal(summary.animations as nat) + ",\"skins\":"@ + decimal(
        summary.skins as nat,
    ) + "}}"@
}

/// The scene summary document of a package.
pub open spec fn scene_summary_text(summary: PackageSummary) -> Seq<char> {
    "{\"label\":\""@ + json_escaped(summary.label@) + "\",\"meshes\":"@ + decimal(
        summary.meshes as nat,
    ) + ",\"materials\":"@ + decimal(summary.materials as nat) + ",\"lights\":"@ + decimal(
        summary.lights as nat,
    ) + ",\"cameras\":"@ + decimal(summary.cameras as nat) + ",\"diagnostics\":"@ + decimal(
        summary.diagnostics as nat,
    ) + "}"@
}

/// Exports package metadata and mesh counts as a compact glTF 2.0 JSON
/// document.
pub fn gltf_json_string(summary: &PackageSummary) -> (json: String)
    requires
        summary.textures + summary.texture_cubes <= usize::MAX,
    ensures
        json@ == gltf_summary_text(*summary),
{
    let mut out = String::new();
    push_str(
        &mut out,
        "{\"asset\":{\"version\":\"2.0\",\"generator\":\"scenix-loader 1.3\"},\"extras\":{\"label\":\"",
    );
    push_escaped(&mut out, summary.label.as_str());
    push_str(&mut out, "\",\"meshes\":");
    push_decimal(&mut out, summary.meshes);
    push_str(&mut out, ",\"materials\":");
    push_decimal(&mut out, summary.materials);
    push_str(&mut out, ",\"textures\":");
    push_decimal(&mut out, summary.textures + summary.texture_cubes);
    push_str(&mut out, ",\"animations\":");
    push_decimal(&mut out, summary.animations);
    push_str(&mut out, ",\"skins\":");
    push_decimal(&mut out, summary.skins);
    push_str(&mut out, "}}");
    assert(out@ =~= gltf_summary_text(*summary));
    out
}

/// Exports a simple scene summary JSON document.
pub fn scene_json_string(summary: &PackageSummary) -> (json: String)
    ensures
        json@ == scene_summary_text(*summary),
{
    let mut out = String::new();
    push_str(&mut out, "{\"label\":\"");
    push_escaped(&mut out, summary.label.as_str());
    push_str(&mut out, "\",\"meshes\":");
    push_decimal(&mut out, summary.meshes);
    push_str(&mut out, ",\"materials\":");
    push_decimal(&mut out, summary.materials);
    push_str(&mut out, ",\"lights\":");
    push_decimal(&mut out, summary.lights);
    push_str(&mut out, ",\"cameras\":");
    push_decimal(&mut out, summary.cameras);
    push_str(&mut out, ",\"diagnostics\":");
    push_decimal(&mut out, summary.diagnostics);
    push_str(&mut out, "}");
    assert(out@ =~= scene_summary_text(*summary));
    out
}

/// Little-endian bytes of a 32-bit value.
pub open spec fn le32(v: u32) -> Seq<u8> {
    seq![v as u8, (v >> 8u32) as u8, (v >> 16u32) as u8, (v >> 24u32) as u8]
}

/// `bytes` followed by spaces up to the next multiple of four bytes.
pub open spec fn space_padded(bytes: Seq<u8>) -> Seq<u8> {
    bytes + Seq::new(((4 - bytes.len() % 4) % 4) as nat, |i: int| 0x20u8)
}

/// A single-chunk GLB container around a JSON chunk: the `glTF` magic,
/// version 2, the total length, the chunk length, the `JSON` chunk type, and
/// the space-padded chunk (lengths as 32-bit little-endian values).
pub open spec fn glb_container(json: Seq<u8>) -> Seq<u8> {
    let body = space_padded(json);
    seq![0x67u8, 0x6cu8, 0x54u8, 0x46u8] + le32(2) + le32((body.len() + 20) as u32)
        + le32(body.len() as u32) + seq![0x4au8, 0x53u8, 0x4fu8, 0x4eu8] + body
}

/// Appends the little-endian bytes of `v`.
fn push_le32(out: &mut Vec<u8>, v: u32)
    ensures
        final(out)@ == old(out)@ + le32(v),
{
    out.push(v as u8);
    out.push((v >> 8) as u8);
    out.push((v >> 16) as u8);
    out.push((v >> 24) as u8);
    assert(out@ =~= old(out)@ + le32(v));
}

/// Exports the compact glTF summary as GLB container bytes for tooling smoke
/// tests.
pub fn glb_summary_bytes(summary: &PackageSummary) -> (bytes: Vec<u8>)
    requires
        summary.textures + summary.texture_cubes <= usize::MAX,
    ensures
        bytes@ == glb_container(vstd::utf8::encode_utf8(gltf_summary_text(*summary))),
{
    let text = gltf_json_string(summary);
    let mut json = text.as_str().as_bytes_vec();
    let ghost raw = json@;
    while json.len() % 4 != 0
        invariant
            json@ == raw + Seq::new((json@.len() - raw.len()) as nat, |i: int| 0x20u8),
            raw.len() <= json@.len() <= raw.len() + 3,
            json@.len() - raw.len() <= (4 - raw.len() % 4) % 4,
            (json@.len() - raw.len()) % 4 == (json@.len() % 4 - raw.len() % 4 + 4) % 4,
        decreases (4 - json@.len() % 4) % 4,
    {
        json.push(0x20u8);
        assert(json@ =~= raw + Seq::new((json@.len() - raw.len()) as nat, |i: int| 0x20u8));
    }
    assert(json@ =~= space_padded(raw));
    let n = json.len();
    let chunk = #[verifier::truncate] (n as u32);
    let total = chunk.wrapping_add(20);
    assert((if (n as u32) + 20u32 > 0xffff_ffffu32 {
        ((n as u32) + 20u32 - 0x1_0000_0000u64) as u32
    } else {
        ((n as u32) + 20u32) as u32
    }) == (n + 20usize) as u32) by (bit_vector);
    let mut bytes: Vec<u8> = Vec::new();
    bytes.push(0x67);
    bytes.push(0x6c);
    bytes.push(0x54);
    bytes.push(0x46);
    push_le32(&mut bytes, 2);
    push_le32(&mut bytes, total);
    push_le32(&mut bytes, chunk);
    bytes.push(0x4a);
    bytes.push(0x53);
    bytes.push(0x4f);
    bytes.push(0x4e);
    let mut i: usize = 0;
    let ghost head = bytes@;
    while i < n
        invariant
            n == json@.len(),
            i <= n,
            bytes@ == head + json@.take(i as int),
        decreases n - i,
    {
        bytes.push(json[i]);
        i = i + 1;
        assert(bytes@ =~= head + json@.take(i as int));
    }
    assert(json@.take(n as int) =~= json@);
    assert(bytes@ =~= glb_container(raw));
    bytes
}

/// A sanitized label has the length of the original, and consists only of
/// ASCII letters, digits, `_` and `-`; sanitizing it again changes nothing.
pub proof fn lemma_sanitize_idempotent(s: Seq<char>)
    ensures
        sanitized(s).len() == s.len(),
        forall|i: int| 0 <= i < s.len() ==> label_char_allowed(#[trigger] sanitized(s)[i]),
        sanitized(sanitized(s)) == sanitized(s),
{
    assert(sanitized(sanitized(s)) =~= sanitized(s));
}

/// Escaping never shortens text, and text free of the escaped characters is
/// written unchanged.
pub proof fn lemma_json_escape_plain(s: Seq<char>)
    ensures
        json_escaped(s).len() >= s.len(),
        (forall|i: int|
            0 <= i < s.len() ==> s[i] != '"' && s[i] != '\\' && s[i] != '\n' && s[i] != '\r'
                && s[i] != '\t') ==> json_escaped(s) == s,
    decreases s.len(),
{
    if s.len() > 0 {
        lemma_json_escape_plain(s.drop_last());
        if forall|i: int|
            0 <= i < s.len() ==> s[i] != '"' && s[i] != '\\' && s[i] != '\n' && s[i] != '\r'
                && s[i] != '\t' {
            assert(json_escaped(s.drop_last()) == s.drop_last());
            assert(json_escaped(s) =~= s);
        }
    }
}

} // verus!
