use gles_kit::command::{Command, GlCommand};
use gles_kit::gl::{GL_ARRAY_BUFFER, GL_ELEMENT_ARRAY_BUFFER, GL_TEXTURE0, GL_TEXTURE_2D};
use gles_kit::text::push_decimal;
use gles_kit::mesh::{texture_kind, vertex_layout, Mesh, MeshError, TextureKind, VERTEX_STRIDE};
use gles_kit::shader::Shader;
use gles_kit::texture::Texture;

fn tex(id: u32, kind: &str, path: &str) -> Texture {
    Texture { id, type_: kind.to_string(), path: path.to_string() }
}

fn uniform(program: u32, name: &str, value: i32) -> GlCommand {
    Command::SetUniformInt { program, name: name.to_string(), value }
}

#[test]
fn texture_kind_recognises_the_four_kinds() {
    assert_eq!(texture_kind(&"texture_diffuse".to_string()), Some(TextureKind::Diffuse));
    assert_eq!(texture_kind(&"texture_specular".to_string()), Some(TextureKind::Specular));
    assert_eq!(texture_kind(&"texture_normal".to_string()), Some(TextureKind::Normal));
    assert_eq!(texture_kind(&"texture_height".to_string()), Some(TextureKind::Height));
    assert_eq!(texture_kind(&"texture_emissive".to_string()), None);
    assert_eq!(texture_kind(&"diffuse".to_string()), None);
    assert_eq!(texture_kind(&String::new()), None);
}

#[test]
fn decimal_numerals() {
    for (n, text) in [(0u32, "0"), (7, "7"), (10, "10"), (123, "123"), (4294967295, "4294967295")] {
        let mut s = "x".to_string();
        push_decimal(&mut s, n);
        assert_eq!(s, format!("x{}", text));
    }
}

#[test]
fn triangle_mesh_is_drawn_with_one_submission_of_three() {
    let mesh = Mesh::new(vec![(); 3], vec![0, 1, 2], vec![tex(9, "texture_diffuse", "red.png")]).unwrap();
    assert_eq!((mesh.vao, mesh.vbo, mesh.ebo), (0, 0, 0));
    let cmds = mesh.draw(&Shader { id: 4 });
    let draws: Vec<i32> = cmds
        .iter()
        .filter_map(|c| match c {
            Command::DrawElements { count } => Some(*count),
            _ => None,
        })
        .collect();
    assert_eq!(draws, vec![3]);
    assert_eq!(
        cmds,
        vec![
            Command::ActiveTexture { unit: GL_TEXTURE0 },
            uniform(4, "texture_diffuse1", 0),
            Command::BindTexture { target: GL_TEXTURE_2D, texture: 9 },
            Command::BindVertexArray { vao: 0 },
            Command::DrawElements { count: 3 },
            Command::BindVertexArray { vao: 0 },
            Command::ActiveTexture { unit: GL_TEXTURE0 },
        ]
    );
}

#[test]
fn samplers_are_numbered_per_kind() {
    let textures = vec![
        tex(1, "texture_diffuse", "a.png"),
        tex(2, "texture_specular", "b.png"),
        tex(3, "texture_diffuse", "c.png"),
        tex(4, "texture_normal", "d.png"),
        tex(5, "texture_height", "e.png"),
        tex(6, "texture_specular", "f.png"),
    ];
    let mut mesh = Mesh::new(vec![0u8; 4], vec![0, 1, 2, 2, 3, 0], textures).unwrap();
    mesh.setup_mesh(11, 12, 13);
    let cmds = mesh.draw(&Shader { id: 7 });
    assert_eq!(cmds.len(), 6 * 3 + 4);
    let names: Vec<(String, i32)> = cmds
        .iter()
        .filter_map(|c| match c {
            Command::SetUniformInt { name, value, .. } => Some((name.clone(), *value)),
            _ => None,
        })
        .collect();
    assert_eq!(
        names,
        vec![
            ("texture_diffuse1".to_string(), 0),
            ("texture_specular1".to_string(), 1),
            ("texture_diffuse2".to_string(), 2),
            ("texture_normal1".to_string(), 3),
            ("texture_height1".to_string(), 4),
            ("texture_specular2".to_string(), 5),
        ]
    );
    assert_eq!(cmds[15], Command::ActiveTexture { unit: GL_TEXTURE0 + 5 });
    assert_eq!(cmds[17], Command::BindTexture { target: GL_TEXTURE_2D, texture: 6 });
    assert_eq!(cmds[18], Command::BindVertexArray { vao: 11 });
    assert_eq!(cmds[19], Command::DrawElements { count: 6 });
    assert_eq!(cmds[21], Command::ActiveTexture { unit: GL_TEXTURE0 });
}

#[test]
fn eleventh_diffuse_map_gets_two_digits() {
    let textures: Vec<Texture> = (0..11).map(|i| tex(i, "texture_diffuse", "d.png")).collect();
    let mesh = Mesh::new(vec![(); 1], vec![0], textures).unwrap();
    let cmds = mesh.draw(&Shader { id: 1 });
    assert_eq!(cmds[31], uniform(1, "texture_diffuse11", 10));
}

#[test]
fn mesh_without_textures_or_indices() {
    let mesh: Mesh<()> = Mesh::new(vec![], vec![], vec![]).unwrap();
    let cmds = mesh.draw(&Shader { id: 2 });
    assert_eq!(
        cmds,
        vec![
            Command::BindVertexArray { vao: 0 },
            Command::DrawElements { count: 0 },
            Command::BindVertexArray { vao: 0 },
            Command::ActiveTexture { unit: GL_TEXTURE0 },
        ]
    );
}

#[test]
fn unknown_texture_kind_is_rejected() {
    let r = Mesh::new(vec![(); 3], vec![0, 1, 2], vec![tex(1, "texture_diffuse", "a"), tex(2, "texture_roughness", "b")]);
    assert_eq!(r.err(), Some(MeshError::UnknownTextureKind));
    let r = Mesh::new(vec![(); 3], vec![0, 1, 2], vec![tex(1, "", "a")]);
    assert_eq!(r.err(), Some(MeshError::UnknownTextureKind));
}

#[test]
fn index_past_the_vertices_is_rejected() {
    let r = Mesh::new(vec![(); 3], vec![0, 1, 3], vec![]);
    assert_eq!(r.err(), Some(MeshError::IndexOutOfRange));
    let r = Mesh::new(Vec::<()>::new(), vec![0], vec![]);
    assert_eq!(r.err(), Some(MeshError::IndexOutOfRange));
    // the index check comes before the texture check
    let r = Mesh::new(vec![(); 1], vec![5], vec![tex(1, "bogus", "a")]);
    assert_eq!(r.err(), Some(MeshError::IndexOutOfRange));
}

#[test]
fn largest_index_is_accepted() {
    let r = Mesh::new(vec![(); 3], vec![2, 2, 2], vec![]);
    assert!(r.is_ok());
}

#[test]
fn vertex_layout_is_packed() {
    let layout = vertex_layout();
    let got: Vec<(u32, i32, u32)> = layout.iter().map(|a| (a.index, a.size, a.offset)).collect();
    assert_eq!(got, vec![(0, 3, 0), (1, 3, 12), (2, 2, 24), (3, 3, 32), (4, 3, 44)]);
    assert_eq!(VERTEX_STRIDE, 56);
    assert_eq!(VERTEX_STRIDE as usize, 14 * std::mem::size_of::<f32>());
}

#[test]
fn setup_records_buffers_and_describes_layout() {
    let mut mesh = Mesh::new(vec![(); 3], vec![0, 1, 2], vec![]).unwrap();
    let cmds = mesh.setup_mesh(5, 6, 7);
    assert_eq!((mesh.vao, mesh.vbo, mesh.ebo), (5, 6, 7));
    let mut expected: Vec<GlCommand> = vec![
        Command::BindVertexArray { vao: 5 },
        Command::BindBuffer { target: GL_ARRAY_BUFFER, buffer: 6 },
        Command::UploadVertices,
        Command::BindBuffer { target: GL_ELEMENT_ARRAY_BUFFER, buffer: 7 },
        Command::UploadIndices,
    ];
    for (index, size, offset) in [(0u32, 3i32, 0u32), (1, 3, 12), (2, 2, 24), (3, 3, 32), (4, 3, 44)] {
        expected.push(Command::EnableVertexAttribArray { index });
        expected.push(Command::VertexAttribPointer { index, size, stride: 56, offset });
    }
    expected.push(Command::BindVertexArray { vao: 0 });
    assert_eq!(cmds, expected);
}
