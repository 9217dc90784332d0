use scenix::asset::{
    asset_format, has_unsupported_features, support_for_extension, AssetDependencyGraph,
    AssetDiagnostic, AssetDiagnosticSeverity, AssetFormatSupport, AssetRequest, AssetSource,
    ASSET_FORMAT_COUNT,
};
use scenix::export::{effective_indices, escape_json, sanitize_label};
use scenix::ids::AssetId;

#[test]
fn requests_carry_their_source() {
    let path = AssetRequest::path(AssetId::new(1), std::path::PathBuf::from("models/a.glb"));
    assert_eq!(path.id, AssetId::new(1));
    assert_eq!(path.source, AssetSource::Path(std::path::PathBuf::from("models/a.glb")));
    let url = AssetRequest::url(AssetId::new(2), String::from("https://x/y.gltf"));
    assert_eq!(url.source, AssetSource::Url(String::from("https://x/y.gltf")));
    let bytes = AssetRequest::bytes(AssetId::new(3), String::from("embedded"), 42);
    assert_eq!(bytes.source, AssetSource::Bytes { label: String::from("embedded"), len: 42 });
}

#[test]
fn diagnostics_have_their_severity() {
    let info = AssetDiagnostic::info(String::from("I1"), String::from("note"));
    assert_eq!(info.severity, AssetDiagnosticSeverity::Info);
    assert_eq!(info.code, "I1");
    assert_eq!(info.message, "note");
    let warning = AssetDiagnostic::warning(String::from("W1"), String::from("partial"));
    assert_eq!(warning.severity, AssetDiagnosticSeverity::Warning);
    let unsupported = AssetDiagnostic::unsupported(String::from("U1"), String::from("no"));
    assert_eq!(unsupported.severity, AssetDiagnosticSeverity::Unsupported);
    assert!(!has_unsupported_features(&[info.clone(), warning.clone()]));
    assert!(has_unsupported_features(&[info, unsupported, warning]));
    assert!(!has_unsupported_features(&[]));
}

#[test]
fn dependency_graph_totals_bytes() {
    let mut graph = AssetDependencyGraph::new();
    assert_eq!(graph.total_bytes(), 0);
    graph.record_url(String::from("https://cdn/x.bin"), 100);
    graph.record_bytes(String::from("inline"), 23);
    assert_eq!(graph.total_bytes(), 123);
    assert_eq!(graph.dependencies.len(), 2);
    assert_eq!(
        graph.dependencies[1].source,
        AssetSource::Bytes { label: String::from("inline"), len: 23 }
    );
    assert!(graph.dependencies[0].modified.is_none());
    assert_eq!(AssetDependencyGraph::default(), AssetDependencyGraph::new());
}

#[test]
fn support_matrix_lookup_normalizes_extensions() {
    let glb = support_for_extension(".GLB").unwrap();
    assert_eq!(glb.name, "glTF / GLB");
    assert_eq!(glb.support, AssetFormatSupport::Full);
    assert_eq!(support_for_extension("..jpeg").unwrap().name, "Images");
    assert_eq!(support_for_extension("ktx2").unwrap().support, AssetFormatSupport::Partial);
    assert_eq!(support_for_extension("Fbx").unwrap().support, AssetFormatSupport::DiagnosticOnly);
    assert_eq!(support_for_extension("3dl").unwrap().name, "PLY / VOX / SVG / IES / LUT");
    assert!(support_for_extension("xyz").is_none());
    assert!(support_for_extension("").is_none());
    assert!(support_for_extension("gl tf").is_none());
    let mut total = 0;
    for i in 0..ASSET_FORMAT_COUNT {
        total += asset_format(i).extensions.len();
    }
    assert_eq!(total, 33);
}

#[test]
fn escape_json_escapes_specials() {
    assert_eq!(escape_json("plain"), "plain");
    assert_eq!(escape_json("a\"b"), "a\\\"b");
    assert_eq!(escape_json("back\\slash"), "back\\\\slash");
    assert_eq!(escape_json("l1\nl2\r\tend"), "l1\\nl2\\r\\tend");
    assert_eq!(escape_json("é\""), "é\\\"");
    assert_eq!(escape_json(""), "");
}

#[test]
fn sanitize_label_replaces_other_characters() {
    assert_eq!(sanitize_label("my label!"), "my_label_");
    assert_eq!(sanitize_label("Scene-01_b"), "Scene-01_b");
    assert_eq!(sanitize_label("naïve/x"), "na_ve_x");
}

#[test]
fn effective_indices_defaults_to_vertex_order() {
    assert_eq!(effective_indices(4, &[]), vec![0, 1, 2, 3]);
    assert_eq!(effective_indices(4, &[2, 1, 0]), vec![2, 1, 0]);
    assert!(effective_indices(0, &[]).is_empty());
}
