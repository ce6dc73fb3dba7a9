use gl_triangle::resources::{Error, Resources, SourceText};

#[test]
fn from_bytes_accepts_clean_text() {
    let text = b"void main() { gl_Position = vec4(0.0); }".to_vec();
    let src = SourceText::from_bytes(text.clone()).unwrap();
    assert_eq!(src.as_bytes(), &text);
}

#[test]
fn from_bytes_rejects_embedded_nul() {
    let mut text = b"void main()".to_vec();
    text.push(0);
    text.extend_from_slice(b"{ }");
    let r = SourceText::from_bytes(text);
    assert!(matches!(r, Err(Error::EmbeddedNulError)));
}

#[test]
fn terminated_appends_exactly_one_nul() {
    let src = SourceText::from_bytes(b"abc".to_vec()).unwrap();
    assert_eq!(src.terminated(), b"abc\0".to_vec());
}

#[test]
fn root_is_exe_parent_joined_with_rel_path() {
    let exe = b"/opt/demo/triangle-demo".to_vec();
    let rel = b"assets".to_vec();
    let res = Resources::from_relative_exe_path(&exe, &rel).unwrap();
    let path = res.resolve(&b"triangle.vert".to_vec());
    assert_eq!(path, b"/opt/demo/assets/triangle.vert".to_vec());
}

#[test]
fn root_keeps_only_the_last_separator() {
    let exe = b"/a/b/c/exe".to_vec();
    let res = Resources::from_relative_exe_path(&exe, &b"shaders".to_vec()).unwrap();
    assert_eq!(res.resolve(&b"x".to_vec()), b"/a/b/c/shaders/x".to_vec());
}

#[test]
fn exe_path_without_parent_is_rejected() {
    let exe = b"demo".to_vec();
    let r = Resources::from_relative_exe_path(&exe, &b"assets".to_vec());
    assert!(matches!(r, Err(Error::PathResolutionError)));
}
