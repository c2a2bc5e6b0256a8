//! Meshes: vertex records with a fixed attribute layout, triangle indices
//! into them, and the textures that they are drawn with.
use vstd::prelude::*;
use crate::command::{Command, CommandView, GlCommand, commands_view};
use crate::gl;
use crate::shader::Shader;
use crate::texture::Texture;
use crate::text::{decimal, push_decimal};

verus! {

/// The semantic kind of a texture, which names its sampler in the shader.
#[derive(Clone, Copy, Debug, PartialEq, Eq, Structural)]
pub enum TextureKind {
    Diffuse,
    Specular,
    Normal,
    Height,
}

/// The kind that a texture's type string names, if it is one of
/// `texture_diffuse`, `texture_specular`, `texture_normal`, `texture_height`.
pub open spec fn kind_of_name(name: Seq<char>) -> Option<TextureKind> {
    if name == "texture_diffuse"@ {
        Some(TextureKind::Diffuse)
    } else if name == "texture_specular"@ {
        Some(TextureKind::Specular)
    } else if name == "texture_normal"@ {
        Some(TextureKind::Normal)
    } else if name == "texture_height"@ {
        Some(TextureKind::Height)
    } else {
        None
    }
}

/// Parses a texture's type string into its kind.
pub fn texture_kind(name: &String) -> (r: Option<TextureKind>)
    ensures
        r == kind_of_name(name@),
{
    if *name == String::from_str("texture_diffuse") {
        Some(TextureKind::Diffuse)
    } else if *name == String::from_str("texture_specular") {
        Some(TextureKind::Specular)
    } else if *name == String::from_str("texture_normal") {
        Some(TextureKind::Normal)
    } else if *name == String::from_str("texture_height") {
        Some(TextureKind::Height)
    } else {
        None
    }
}

/// How many of `kinds` are `k`.
pub open spec fn count_kind(kinds: Seq<TextureKind>, k: TextureKind) -> nat
    decreases kinds.len(),
{
    if kinds.len() == 0 {
        0
    } else {
        count_kind(kinds.drop_last(), k) + if kinds.last() == k {
            1nat
        } else {
            0nat
        }
    }
}

/// Each texture has a type string of a recognised kind.
pub open spec fn kinds_known(textures: Seq<Texture>) -> bool {
    forall|i: int| 0 <= i < textures.len() ==> (#[trigger] kind_of_name(textures[i].type_@)) is Some
}

/// The kind of each texture, in order.
pub open spec fn texture_kinds(textures: Seq<Texture>) -> Seq<TextureKind> {
    textures.map_values(|t: Texture| kind_of_name(t.type_@).unwrap())
}

/// The 1-based rank of texture `i` among the textures of its kind.
pub open spec fn sampler_number(textures: Seq<Texture>, i: int) -> nat {
    count_kind(texture_kinds(textures).take(i + 1), texture_kinds(textures)[i])
}

/// The sampler uniform of texture `i`: its type string followed by its rank
/// among the textures of its kind (`texture_diffuse1`, `texture_diffuse2`).
pub open spec fn sampler_name(textures: Seq<Texture>, i: int) -> Seq<char> {
    textures[i].type_@ + decimal(sampler_number(textures, i))
}

/// Texture `i` goes to unit `i`: select the unit, point its sampler there,
/// bind the texture.
pub open spec fn binding_commands(program: u32, textures: Seq<Texture>, i: int) -> Seq<CommandView> {
    seq![
        Command::ActiveTexture { unit: (gl::GL_TEXTURE0 + i) as u32 },
        Command::SetUniformInt { program, name: sampler_name(textures, i), value: i as i32 },
        Command::BindTexture { target: gl::GL_TEXTURE_2D, texture: textures[i].id },
    ]
}

/// The binding commands of the first `n` textures.
pub open spec fn bindings_upto(program: u32, textures: Seq<Texture>, n: int) -> Seq<CommandView>
    decreases n,
{
    if n <= 0 {
        Seq::empty()
    } else {
        bindings_upto(program, textures, n - 1) + binding_commands(program, textures, n - 1)
    }
}

/// Binds every texture, then draws all indices as triangles from the vertex
/// array, unbinds it and selects unit 0 again.
pub open spec fn draw_commands(program: u32, textures: Seq<Texture>, vao: u32, count: int) -> Seq<CommandView> {
    bindings_upto(program, textures, textures.len() as int) + seq![
        Command::BindVertexArray { vao },
        Command::DrawElements { count: count as i32 },
        Command::BindVertexArray { vao: 0 },
        Command::ActiveTexture { unit: gl::GL_TEXTURE0 },
    ]
}

/// One attribute of the vertex record: its location, its number of floats,
/// and its byte offset in the record.
#[derive(Clone, Copy, Debug, PartialEq, Eq, Structural)]
pub struct VertexAttribute {
    pub index: u32,
    pub size: i32,
    pub offset: u32,
}

/// Bytes in a vertex record: position (3 floats), normal (3), texture
/// coordinates (2), tangent (3), bitangent (3), tightly packed.
pub const VERTEX_STRIDE: i32 = 56;

/// The floats of each attribute, in record order.
pub open spec fn attribute_sizes() -> Seq<i32> {
    seq![3, 3, 2, 3, 3]
}

/// The byte offset of attribute `i`: four bytes for each float before it.
pub open spec fn attribute_offset(i: int) -> int
    decreases i,
{
    if i <= 0 {
        0
    } else {
        attribute_offset(i - 1) + 4 * attribute_sizes()[i - 1]
    }
}

pub open spec fn layout_spec() -> Seq<VertexAttribute> {
    seq![
        VertexAttribute { index: 0, size: 3, offset: 0 },
        VertexAttribute { index: 1, size: 3, offset: 12 },
        VertexAttribute { index: 2, size: 2, offset: 24 },
        VertexAttribute { index: 3, size: 3, offset: 32 },
        VertexAttribute { index: 4, size: 3, offset: 44 },
    ]
}

/// The attribute layout of a vertex record.
pub fn vertex_layout() -> (r: Vec<VertexAttribute>)
    ensures
        r@ == layout_spec(),
{
    let r = vec![
        VertexAttribute { index: 0, size: 3, offset: 0 },
        VertexAttribute { index: 1, size: 3, offset: 12 },
        VertexAttribute { index: 2, size: 2, offset: 24 },
        VertexAttribute { index: 3, size: 3, offset: 32 },
        VertexAttribute { index: 4, size: 3, offset: 44 },
    ];
    assert(r@ =~= layout_spec());
    r
}

/// The layout is tight: attribute `i` sits at location `i`, holds the floats
/// that the record gives it, starts where the one before it ends, and the
/// stride is the size of the whole record.
pub proof fn vertex_layout_is_tight()
    ensures
        layout_spec().len() == attribute_sizes().len(),
        forall|i: int|
            0 <= i < layout_spec().len() ==> {
                &&& #[trigger] layout_spec()[i].index == i
                &&& layout_spec()[i].size == attribute_sizes()[i]
                &&& layout_spec()[i].offset == attribute_offset(i)
            },
        VERTEX_STRIDE == attribute_offset(5),
{
    reveal_with_fuel(attribute_offset, 6);
}

/// Buffer setup: bind the vertex array, upload the records and the indices
/// with the static usage hint, and describe each attribute.
pub open spec fn setup_commands(vao: u32, vbo: u32, ebo: u32) -> Seq<CommandView> {
    seq![
        Command::BindVertexArray { vao },
        Command::BindBuffer { target: gl::GL_ARRAY_BUFFER, buffer: vbo },
        Command::UploadVertices,
        Command::BindBuffer { target: gl::GL_ELEMENT_ARRAY_BUFFER, buffer: ebo },
        Command::UploadIndices,
    ] + attribute_commands(5) + seq![Command::BindVertexArray { vao: 0 }]
}

/// Enables and describes the first `n` attributes of the layout.
pub open spec fn attribute_commands(n: int) -> Seq<CommandView>
    decreases n,
{
    if n <= 0 {
        Seq::empty()
    } else {
        attribute_commands(n - 1) + seq![
            Command::EnableVertexAttribArray { index: layout_spec()[n - 1].index },
            Command::VertexAttribPointer {
                index: layout_spec()[n - 1].index,
                size: layout_spec()[n - 1].size,
                stride: VERTEX_STRIDE,
                offset: layout_spec()[n - 1].offset,
            },
        ]
    }
}


/// The element counts of the draw submissions among `cmds`, in order.
pub open spec fn draw_submissions(cmds: Seq<CommandView>) -> Seq<i32>
    decreases cmds.len(),
{
    if cmds.len() == 0 {
        Seq::empty()
    } else {
        draw_submissions(cmds.drop_last()) + match cmds.last() {
            Command::DrawElements { count } => seq![count],
            _ => Seq::empty(),
        }
    }
}

proof fn lemma_draw_submissions_concat(a: Seq<CommandView>, b: Seq<CommandView>)
    ensures
        draw_submissions(a + b) == draw_submissions(a) + draw_submissions(b),
    decreases b.len(),
{
    if b.len() == 0 {
        assert(a + b =~= a);
        assert(draw_submissions(a) + draw_submissions(b) =~= draw_submissions(a));
    } else {
        assert((a + b).drop_last() =~= a + b.drop_last());
        lemma_draw_submissions_concat(a, b.drop_last());
        assert(draw_submissions(a + b) =~= draw_submissions(a) + draw_submissions(b));
    }
}

proof fn lemma_bindings_do_not_draw(program: u32, textures: Seq<Texture>, n: int)
    ensures
        draw_submissions(bindings_upto(program, textures, n)) == Seq::<i32>::empty(),
    decreases n,
{
    if n > 0 {
        let b = binding_commands(program, textures, n - 1);
        lemma_bindings_do_not_draw(program, textures, n - 1);
        lemma_draw_submissions_concat(bindings_upto(program, textures, n - 1), b);
        reveal_with_fuel(draw_submissions, 4);
        assert(b.drop_last().drop_last().drop_last() =~= Seq::<CommandView>::empty());
        assert(draw_submissions(b) =~= Seq::<i32>::empty());
        assert(draw_submissions(bindings_upto(program, textures, n)) =~= Seq::<i32>::empty());
    }
}

/// A mesh built from valid data (every index names a vertex, every texture
/// kind is recognised, the counts fit the driver's types) is drawn with
/// exactly one draw submission, which covers all of its indices.
pub proof fn lemma_draw_submits_once(
    program: u32,
    vertex_count: int,
    indices: Seq<u32>,
    textures: Seq<Texture>,
    vao: u32,
)
    requires
        sizes_fit(indices.len() as int, textures.len() as int),
        indices_valid(indices, vertex_count),
        kinds_known(textures),
    ensures
        draw_submissions(draw_commands(program, textures, vao, indices.len() as int)) == seq![indices.len() as i32],
{
    let tail = seq![
        Command::BindVertexArray { vao },
        Command::DrawElements { count: indices.len() as i32 },
        Command::BindVertexArray { vao: 0 },
        Command::ActiveTexture { unit: gl::GL_TEXTURE0 },
    ];
    lemma_bindings_do_not_draw(program, textures, textures.len() as int);
    lemma_draw_submissions_concat(bindings_upto(program, textures, textures.len() as int), tail);
    reveal_with_fuel(draw_submissions, 5);
    assert(tail.drop_last().drop_last().drop_last().drop_last() =~= Seq::<CommandView>::empty());
    assert(draw_submissions(tail) =~= seq![indices.len() as i32]);
    assert(draw_submissions(draw_commands(program, textures, vao, indices.len() as int)) =~= seq![
        indices.len() as i32,
    ]);
}

#[derive(Clone, Copy, Debug, PartialEq, Eq, Structural)]
pub enum MeshError {
    /// There are more indices or textures than the driver's signed count
    /// type holds.
    TooLarge,
    /// An index does not name a vertex.
    IndexOutOfRange,
    /// A texture's type string is not a recognised kind.
    UnknownTextureKind,
}

/// Every index names a vertex.
pub open spec fn indices_valid(indices: Seq<u32>, vertex_count: int) -> bool {
    forall|i: int| 0 <= i < indices.len() ==> (#[trigger] indices[i]) < vertex_count
}

pub open spec fn sizes_fit(index_count: int, texture_count: int) -> bool {
    index_count <= i32::MAX && texture_count <= i32::MAX
}

/// Vertex records of type `V`, triangles as indices into them, and the
/// textures the mesh is drawn with. `vao`, `vbo` and `ebo` are the device
/// objects that hold the uploaded data (0 until the mesh is set up).
#[derive(Debug)]
pub struct Mesh<V> {
    pub vertices: Vec<V>,
    pub indices: Vec<u32>,
    pub textures: Vec<Texture>,
    pub vao: u32,
    pub vbo: u32,
    pub ebo: u32,
}

proof fn lemma_count_kind_bounded(kinds: Seq<TextureKind>, k: TextureKind)
    ensures
        count_kind(kinds, k) <= kinds.len(),
    decreases kinds.len(),
{
    if kinds.len() > 0 {
        lemma_count_kind_bounded(kinds.drop_last(), k);
    }
}

/// Counting over one more element adds one exactly when it is of kind `k`.
proof fn lemma_count_kind_step(kinds: Seq<TextureKind>, i: int, k: TextureKind)
    requires
        0 <= i < kinds.len(),
    ensures
        count_kind(kinds.take(i + 1), k) == count_kind(kinds.take(i), k) + if kinds[i] == k {
            1nat
        } else {
            0nat
        },
{
    assert(kinds.take(i + 1).drop_last() =~= kinds.take(i));
}

/// Binding texture `i`: how its kind's counter advances.
proof fn lemma_next_number(textures: Seq<Texture>, i: int)
    requires
        0 <= i < textures.len(),
    ensures
        sampler_number(textures, i) == count_kind(texture_kinds(textures).take(i), texture_kinds(textures)[i]) + 1,
        forall|k: TextureKind|
            k != texture_kinds(textures)[i] ==> #[trigger] count_kind(texture_kinds(textures).take(i + 1), k)
                == count_kind(texture_kinds(textures).take(i), k),
{
    let kinds = texture_kinds(textures);
    lemma_count_kind_step(kinds, i, kinds[i]);
    assert forall|k: TextureKind| k != kinds[i] implies #[trigger] count_kind(kinds.take(i + 1), k) == count_kind(
        kinds.take(i),
        k,
    ) by {
        lemma_count_kind_step(kinds, i, k);
    }
}

impl<V> Mesh<V> {
    pub open spec fn wf(&self) -> bool {
        &&& sizes_fit(self.indices@.len() as int, self.textures@.len() as int)
        &&& indices_valid(self.indices@, self.vertices@.len() as int)
        &&& kinds_known(self.textures@)
    }

    /// Builds a mesh from its data. Fails when an index names no vertex or a
    /// texture's kind is not recognised; the buffers are not set up yet.
    pub fn new(vertices: Vec<V>, indices: Vec<u32>, textures: Vec<Texture>) -> (r: Result<Mesh<V>, MeshError>)
        ensures
            !sizes_fit(indices@.len() as int, textures@.len() as int) ==> r == Err::<Mesh<V>, MeshError>(
                MeshError::TooLarge,
            ),
            sizes_fit(indices@.len() as int, textures@.len() as int) && !indices_valid(
                indices@,
                vertices@.len() as int,
            ) ==> r == Err::<Mesh<V>, MeshError>(MeshError::IndexOutOfRange),
            sizes_fit(indices@.len() as int, textures@.len() as int) && indices_valid(
                indices@,
                vertices@.len() as int,
            ) && !kinds_known(textures@) ==> r == Err::<Mesh<V>, MeshError>(
                MeshError::UnknownTextureKind,
            ),
            r is Ok <==> (sizes_fit(indices@.len() as int, textures@.len() as int) && indices_valid(
                indices@,
                vertices@.len() as int,
            ) && kinds_known(textures@)),
            r matches Ok(m) ==> {
                &&& m.wf()
                &&& m.vertices == vertices
                &&& m.indices == indices
                &&& m.textures == textures
                &&& m.vao == 0 && m.vbo == 0 && m.ebo == 0
            },
    {
        if indices.len() > i32::MAX as usize || textures.len() > i32::MAX as usize {
            return Err(MeshError::TooLarge);
        }
        let n = vertices.len();
        let mut i: usize = 0;
        while i < indices.len()
            invariant
                i <= indices@.len(),
                n == vertices@.len(),
                sizes_fit(indices@.len() as int, textures@.len() as int),
                forall|j: int| 0 <= j < i ==> (#[trigger] indices@[j]) < n,
            decreases indices@.len() - i,
        {
            if indices[i] as usize >= n {
                return Err(MeshError::IndexOutOfRange);
            }
            i = i + 1;
        }
        let mut k: usize = 0;
        while k < textures.len()
            invariant
                k <= textures@.len(),
                sizes_fit(indices@.len() as int, textures@.len() as int),
                indices_valid(indices@, vertices@.len() as int),
                forall|j: int| 0 <= j < k ==> (#[trigger] kind_of_name(textures@[j].type_@)) is Some,
            decreases textures@.len() - k,
        {
            if texture_kind(&textures[k].type_).is_none() {
                return Err(MeshError::UnknownTextureKind);
            }
            k = k + 1;
        }
        Ok(Mesh { vertices, indices, textures, vao: 0, vbo: 0, ebo: 0 })
    }

    /// Records the device objects that hold the mesh and returns the
    /// commands that upload its data into them and describe the layout.
    pub fn setup_mesh(&mut self, vao: u32, vbo: u32, ebo: u32) -> (r: Vec<GlCommand>)
        ensures
            final(self).vertices == old(self).vertices,
            final(self).indices == old(self).indices,
            final(self).textures == old(self).textures,
            final(self).vao == vao && final(self).vbo == vbo && final(self).ebo == ebo,
            commands_view(r@) == setup_commands(vao, vbo, ebo),
    {
        self.vao = vao;
        self.vbo = vbo;
        self.ebo = ebo;
        let mut r: Vec<GlCommand> = Vec::new();
        r.push(Command::BindVertexArray { vao });
        r.push(Command::BindBuffer { target: gl::GL_ARRAY_BUFFER, buffer: vbo });
        r.push(Command::UploadVertices);
        r.push(Command::BindBuffer { target: gl::GL_ELEMENT_ARRAY_BUFFER, buffer: ebo });
        r.push(Command::UploadIndices);
        let layout = vertex_layout();
        let mut i: usize = 0;
        while i < layout.len()
            invariant
                layout@ == layout_spec(),
                i <= 5,
                commands_view(r@) == seq![
                    Command::BindVertexArray { vao },
                    Command::BindBuffer { target: gl::GL_ARRAY_BUFFER, buffer: vbo },
                    Command::UploadVertices,
                    Command::BindBuffer { target: gl::GL_ELEMENT_ARRAY_BUFFER, buffer: ebo },
                    Command::UploadIndices,
                ] + attribute_commands(i as int),
            decreases 5 - i,
        {
            let a = layout[i];
            let ghost prev = r@;
            r.push(Command::EnableVertexAttribArray { index: a.index });
            r.push(Command::VertexAttribPointer { index: a.index, size: a.size, stride: VERTEX_STRIDE, offset: a.offset });
            assert(commands_view(r@) =~= commands_view(prev) + seq![
                Command::EnableVertexAttribArray { index: a.index },
                Command::VertexAttribPointer { index: a.index, size: a.size, stride: VERTEX_STRIDE, offset: a.offset },
            ]);
            i = i + 1;
        }
        r.push(Command::BindVertexArray { vao: 0 });
        assert(commands_view(r@) =~= setup_commands(vao, vbo, ebo));
        r
    }

    /// The commands that draw the mesh with `shader`: texture `i` is bound to
    /// unit `i` and its sampler is named by its kind and its rank among the
    /// textures of that kind; then one draw covers all indices.
    pub fn draw(&self, shader: &Shader) -> (r: Vec<GlCommand>)
        requires
            self.wf(),
        ensures
            commands_view(r@) == draw_commands(shader.id, self.textures@, self.vao, self.indices@.len() as int),
    {
        let ghost textures = self.textures@;
        let ghost kinds = texture_kinds(textures);
        let mut diffuse_nr: u32 = 0;
        let mut specular_nr: u32 = 0;
        let mut normal_nr: u32 = 0;
        let mut height_nr: u32 = 0;
        let mut r: Vec<GlCommand> = Vec::new();
        let mut i: usize = 0;
        while i < self.textures.len()
            invariant
                self.wf(),
                textures == self.textures@,
                kinds == texture_kinds(textures),
                i <= textures.len(),
                diffuse_nr == count_kind(kinds.take(i as int), TextureKind::Diffuse),
                specular_nr == count_kind(kinds.take(i as int), TextureKind::Specular),
                normal_nr == count_kind(kinds.take(i as int), TextureKind::Normal),
                height_nr == count_kind(kinds.take(i as int), TextureKind::Height),
                commands_view(r@) == bindings_upto(shader.id, textures, i as int),
            decreases textures.len() - i,
        {
            let texture = &self.textures[i];
            proof {
                lemma_next_number(textures, i as int);
                lemma_count_kind_bounded(kinds.take(i as int), kinds[i as int]);
                assert(kind_of_name(textures[i as int].type_@) is Some);
            }
            let ghost prev = r@;
            r.push(Command::ActiveTexture { unit: gl::GL_TEXTURE0 + i as u32 });
            let number = match texture_kind(&texture.type_) {
                Some(TextureKind::Diffuse) => {
                    diffuse_nr = diffuse_nr + 1;
                    diffuse_nr
                },
                Some(TextureKind::Specular) => {
                    specular_nr = specular_nr + 1;
                    specular_nr
                },
                Some(TextureKind::Normal) => {
                    normal_nr = normal_nr + 1;
                    normal_nr
                },
                Some(TextureKind::Height) => {
                    height_nr = height_nr + 1;
                    height_nr
                },
                None => {
                    assert(false);
                    0
                },
            };
            let mut name = texture.type_.clone();
            push_decimal(&mut name, number);
            r.push(Command::SetUniformInt { program: shader.id, name, value: i as i32 });
            r.push(Command::BindTexture { target: gl::GL_TEXTURE_2D, texture: texture.id });
            assert(commands_view(r@) =~= commands_view(prev) + binding_commands(shader.id, textures, i as int));
            i = i + 1;
        }
        let ghost prev = r@;
        r.push(Command::BindVertexArray { vao: self.vao });
        r.push(Command::DrawElements { count: self.indices.len() as i32 });
        r.push(Command::BindVertexArray { vao: 0 });
        r.push(Command::ActiveTexture { unit: gl::GL_TEXTURE0 });
        assert(commands_view(r@) =~= draw_commands(shader.id, textures, self.vao, self.indices@.len() as int));
        r
    }
}

} // verus!
