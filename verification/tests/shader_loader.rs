use gpu_core::shader::{create_shader, load, ShaderError, ShaderStage};

#[test]
fn vertex_stage_from_vert_extension() {
    let req = load(b"src/triangle.vert".to_vec(), 0, 1, 0, 0).unwrap();
    assert_eq!(req.stage, ShaderStage::Vertex);
    assert_eq!(req.binary_path, b"src/triangle.spv".to_vec());
    assert_eq!(req.sampler_count, 0);
    assert_eq!(req.uniform_buffer_count, 1);
    assert_eq!(req.storage_buffer_count, 0);
    assert_eq!(req.storage_texture_count, 0);
}

#[test]
fn fragment_stage_from_frag_extension() {
    let req = load(b"src/solid_color.frag".to_vec(), 0, 1, 0, 0).unwrap();
    assert_eq!(req.stage, ShaderStage::Fragment);
    assert_eq!(req.binary_path, b"src/solid_color.spv".to_vec());
}

#[test]
fn bare_name_derives_binary_beside_it() {
    let req = load(b"shape.vert".to_vec(), 0, 0, 0, 0).unwrap();
    assert_eq!(req.stage, ShaderStage::Vertex);
    assert_eq!(req.binary_path, b"shape.spv".to_vec());
}

#[test]
fn unknown_extension_is_rejected() {
    assert_eq!(
        load(b"shader.glsl".to_vec(), 0, 0, 0, 0),
        Err(ShaderError::UnknownStage)
    );
}

#[test]
fn name_without_extension_is_rejected() {
    assert_eq!(load(b"shader".to_vec(), 0, 0, 0, 0), Err(ShaderError::UnknownStage));
}

#[test]
fn leading_dot_introduces_no_extension() {
    assert_eq!(load(b".vert".to_vec(), 0, 0, 0, 0), Err(ShaderError::UnknownStage));
    assert_eq!(load(b"dir/.vert".to_vec(), 0, 0, 0, 0), Err(ShaderError::UnknownStage));
}

#[test]
fn dot_in_directory_is_no_extension() {
    assert_eq!(load(b"assets.d/shader".to_vec(), 0, 0, 0, 0), Err(ShaderError::UnknownStage));
}

#[test]
fn missing_binary_names_the_derived_path() {
    let req = load(b"shape.vert".to_vec(), 0, 0, 0, 0).unwrap();
    let err = create_shader(req, None).unwrap_err();
    assert_eq!(err, ShaderError::MissingBinary { path: b"shape.spv".to_vec() });
}

#[test]
fn present_binary_becomes_the_shader_object() {
    let req = load(b"shape.frag".to_vec(), 2, 1, 3, 4).unwrap();
    let blob = vec![0x03u8, 0x02, 0x23, 0x07];
    let obj = create_shader(req, Some(blob.clone())).unwrap();
    assert_eq!(obj.stage, ShaderStage::Fragment);
    assert_eq!(obj.code, blob);
    assert_eq!(obj.sampler_count, 2);
    assert_eq!(obj.uniform_buffer_count, 1);
    assert_eq!(obj.storage_buffer_count, 3);
    assert_eq!(obj.storage_texture_count, 4);
}
