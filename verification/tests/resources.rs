use cg_demo::resources::{
    contains_nil, format_texture_path, resource_name_to_path, Resources,
};
use cg_demo::shader::{shader_kind_for_resource, ShaderKind};

#[test]
fn construct_path_joins_components() {
    let resources = Resources::new(String::from("root"));
    let path = resources.construct_path("shaders/base.vert");
    assert_eq!(path.unwrap(), "root/shaders/base.vert");
}

#[test]
fn resource_name_to_path_single_component() {
    assert_eq!(resource_name_to_path("root", "a"), "root/a");
}

#[test]
fn resource_name_to_path_nested_components() {
    assert_eq!(resource_name_to_path("base/dir", "a/b/c"), "base/dir/a/b/c");
}

#[test]
fn resource_name_to_path_empty_location_keeps_trailing_separator() {
    assert_eq!(resource_name_to_path("root", ""), "root/");
}

#[test]
fn resource_name_to_path_collapses_repeated_separators() {
    assert_eq!(resource_name_to_path("root", "a//b"), "root/a/b");
}

#[test]
fn resource_name_to_path_root_with_trailing_separator() {
    assert_eq!(resource_name_to_path("root/", "a"), "root/a");
}

#[test]
fn resource_name_to_path_empty_root() {
    assert_eq!(resource_name_to_path("", "a/b"), "a/b");
}

#[test]
fn format_texture_path_formats_name_type_extension() {
    assert_eq!(
        format_texture_path("textures/wall", "base", "jpg"),
        "textures/wall_base.jpg"
    );
    assert_eq!(
        format_texture_path("textures/wall", "height", "jpg"),
        "textures/wall_height.jpg"
    );
}

#[test]
fn shader_kind_by_extension() {
    assert_eq!(
        shader_kind_for_resource("shaders/base.vert"),
        Some(ShaderKind::Vertex)
    );
    assert_eq!(
        shader_kind_for_resource("shaders/base.frag"),
        Some(ShaderKind::Fragment)
    );
    assert_eq!(shader_kind_for_resource("shaders/base.txt"), None);
    assert_eq!(shader_kind_for_resource("vert"), None);
    assert_eq!(shader_kind_for_resource(""), None);
}

#[test]
fn contains_nil_finds_interior_nul() {
    assert!(!contains_nil(&vec![1, 2, 3]));
    assert!(contains_nil(&vec![1, 0, 3]));
    assert!(contains_nil(&vec![0]));
    assert!(!contains_nil(&vec![]));
}
