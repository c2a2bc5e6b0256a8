use gles_kit::command::Command;
use gles_kit::gl::GL_TEXTURE0;
use gles_kit::mesh::MeshError;
use gles_kit::model::{MaterialMaps, Model, TextureLookup, TextureRequest};
use gles_kit::shader::Shader;
use gles_kit::texture::Texture;

fn maps(d: &str, s: &str, n: &str) -> MaterialMaps {
    MaterialMaps { diffuse_texture: d.to_string(), specular_texture: s.to_string(), normal_texture: n.to_string() }
}

fn req(path: &str, kind: &str) -> TextureRequest {
    TextureRequest { path: path.to_string(), type_: kind.to_string() }
}

#[test]
fn first_request_loads_from_the_model_directory() {
    let model: Model<()> = Model::new("assets/backpack".to_string());
    assert_eq!(
        model.request_texture("diffuse.jpg"),
        TextureLookup::Load { file_name: "assets/backpack/diffuse.jpg".to_string() }
    );
    assert_eq!(model.texture_file_name("x.png"), "assets/backpack/x.png");
    let root: Model<()> = Model::new(String::new());
    assert_eq!(root.texture_file_name("x.png"), "/x.png");
}

#[test]
fn same_path_twice_yields_the_same_handle() {
    let mut model: Model<()> = Model::new("dir".to_string());
    let first = model.remember_texture(17, "texture_diffuse", "wood.png");
    assert_eq!(first, Texture { id: 17, type_: "texture_diffuse".to_string(), path: "wood.png".to_string() });
    match model.request_texture("wood.png") {
        TextureLookup::Cached(t) => assert_eq!(t.id, 17),
        other => panic!("expected a cache hit, got {:?}", other),
    }
    // remembering a second upload of the same path keeps the first handle
    let again = model.remember_texture(99, "texture_specular", "wood.png");
    assert_eq!(again.id, 17);
    assert_eq!(again.type_, "texture_diffuse");
    assert_eq!(model.textures_loaded.len(), 1);
    assert_eq!(model.cached_texture("wood.png").map(|t| t.id), Some(17));
}

#[test]
fn distinct_paths_are_cached_separately() {
    let mut model: Model<()> = Model::new("dir".to_string());
    model.remember_texture(1, "texture_diffuse", "a.png");
    model.remember_texture(2, "texture_normal", "b.png");
    assert_eq!(model.cached_texture("a.png").map(|t| t.id), Some(1));
    assert_eq!(model.cached_texture("b.png").map(|t| t.id), Some(2));
    assert_eq!(model.cached_texture("c.png"), None);
    assert_eq!(model.cached_texture("dir/a.png"), None);
    assert_eq!(model.textures_loaded.len(), 2);
}

#[test]
fn material_requests_in_order_skipping_empty_maps() {
    assert_eq!(
        maps("d.png", "s.png", "n.png").texture_requests(),
        vec![req("d.png", "texture_diffuse"), req("s.png", "texture_specular"), req("n.png", "texture_normal")]
    );
    assert_eq!(maps("", "s.png", "").texture_requests(), vec![req("s.png", "texture_specular")]);
    assert_eq!(maps("d.png", "", "n.png").texture_requests(), vec![req("d.png", "texture_diffuse"), req("n.png", "texture_normal")]);
    assert_eq!(maps("", "", "").texture_requests(), vec![]);
}

#[test]
fn add_mesh_and_draw_every_mesh() {
    let mut model: Model<()> = Model::new("dir".to_string());
    let t = model.remember_texture(3, "texture_diffuse", "a.png");
    assert_eq!(model.add_mesh(vec![(); 3], vec![0, 1, 2], vec![t.clone()]), Ok(()));
    assert_eq!(model.add_mesh(vec![(); 3], vec![0, 1, 2, 2, 1, 0], vec![t]), Ok(()));
    assert_eq!(model.add_mesh(vec![(); 2], vec![0, 1, 2], vec![]), Err(MeshError::IndexOutOfRange));
    assert_eq!(model.meshes.len(), 2);
    let cmds = model.draw(&Shader { id: 8 });
    assert_eq!(cmds.len(), 2 * (3 + 4));
    assert_eq!(cmds[4], Command::DrawElements { count: 3 });
    assert_eq!(cmds[7], Command::ActiveTexture { unit: GL_TEXTURE0 });
    assert_eq!(cmds[11], Command::DrawElements { count: 6 });
    assert_eq!(
        cmds[8],
        Command::SetUniformInt { program: 8, name: "texture_diffuse1".to_string(), value: 0 }
    );
}
