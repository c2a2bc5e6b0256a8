//! Models: the meshes of one asset file, and the cache that makes each
//! texture file load once per model.
use vstd::prelude::*;
use crate::command::{CommandView, GlCommand, commands_view};
use crate::mesh::{Mesh, MeshError, draw_commands, indices_valid, kind_of_name, kinds_known, sizes_fit};
use crate::shader::Shader;
use crate::texture::Texture;

verus! {

/// The first texture of `ts` that was loaded from `path`, if any.
pub open spec fn cached(ts: Seq<Texture>, path: Seq<char>) -> Option<Texture>
    decreases ts.len(),
{
    if ts.len() == 0 {
        None
    } else if ts[0].path@ == path {
        Some(ts[0])
    } else {
        cached(ts.drop_first(), path)
    }
}

/// No two textures were loaded from the same path.
pub open spec fn paths_unique(ts: Seq<Texture>) -> bool {
    forall|i: int, j: int| 0 <= i < j < ts.len() ==> (#[trigger] ts[i]).path@ != (#[trigger] ts[j]).path@
}

/// The texture maps that a material names; an empty path means that the
/// material has no such map.
#[derive(Clone, Debug, PartialEq, Eq)]
pub struct MaterialMaps {
    pub diffuse_texture: String,
    pub specular_texture: String,
    pub normal_texture: String,
}

/// A texture that a mesh needs: the file, relative to the model's directory,
/// and the kind it is bound as.
#[derive(Clone, Debug, PartialEq, Eq)]
pub struct TextureRequest {
    pub path: String,
    pub type_: String,
}

/// What a model does for a texture that a mesh needs.
#[derive(Debug, PartialEq, Eq)]
pub enum TextureLookup {
    /// It was loaded before: the mesh shares this texture.
    Cached(Texture),
    /// It was not: the file at `file_name` must be loaded, then remembered.
    Load { file_name: String },
}

/// The maps of a material that name a file, in the order diffuse, specular,
/// normal, each with the kind it is bound as.
pub open spec fn material_requests(m: MaterialMaps) -> Seq<(Seq<char>, Seq<char>)> {
    (if m.diffuse_texture@.len() > 0 {
        seq![(m.diffuse_texture@, "texture_diffuse"@)]
    } else {
        Seq::empty()
    }) + (if m.specular_texture@.len() > 0 {
        seq![(m.specular_texture@, "texture_specular"@)]
    } else {
        Seq::empty()
    }) + (if m.normal_texture@.len() > 0 {
        seq![(m.normal_texture@, "texture_normal"@)]
    } else {
        Seq::empty()
    })
}

/// Every texture that a material asks for is of a recognised kind, so its
/// textures never make a mesh fail with an unknown kind.
pub proof fn lemma_material_kinds_known(m: MaterialMaps)
    ensures
        forall|i: int|
            0 <= i < material_requests(m).len() ==> (#[trigger] kind_of_name(material_requests(m)[i].1)) is Some,
{
    let d: Seq<(Seq<char>, Seq<char>)> = if m.diffuse_texture@.len() > 0 {
        seq![(m.diffuse_texture@, "texture_diffuse"@)]
    } else {
        Seq::empty()
    };
    let s: Seq<(Seq<char>, Seq<char>)> = if m.specular_texture@.len() > 0 {
        seq![(m.specular_texture@, "texture_specular"@)]
    } else {
        Seq::empty()
    };
    let n: Seq<(Seq<char>, Seq<char>)> = if m.normal_texture@.len() > 0 {
        seq![(m.normal_texture@, "texture_normal"@)]
    } else {
        Seq::empty()
    };
    assert(material_requests(m) == d + s + n);
    assert forall|i: int| 0 <= i < material_requests(m).len() implies (#[trigger] kind_of_name(
        material_requests(m)[i].1,
    )) is Some by {
        let all = d + s + n;
        if i < d.len() {
            assert(all[i] == d[i]);
        } else if i < d.len() + s.len() {
            assert(all[i] == s[i - d.len()]);
        } else {
            assert(all[i] == n[i - d.len() - s.len()]);
        }
    }
}

pub open spec fn requests_view(rs: Seq<TextureRequest>) -> Seq<(Seq<char>, Seq<char>)> {
    rs.map_values(|r: TextureRequest| (r.path@, r.type_@))
}

impl MaterialMaps {
    /// The textures that a mesh with this material needs.
    pub fn texture_requests(&self) -> (r: Vec<TextureRequest>)
        ensures
            requests_view(r@) == material_requests(*self),
    {
        let mut r: Vec<TextureRequest> = Vec::new();
        if !self.diffuse_texture.as_str().is_empty() {
            r.push(TextureRequest { path: self.diffuse_texture.clone(), type_: String::from_str("texture_diffuse") });
        }
        if !self.specular_texture.as_str().is_empty() {
            r.push(TextureRequest { path: self.specular_texture.clone(), type_: String::from_str("texture_specular") });
        }
        if !self.normal_texture.as_str().is_empty() {
            r.push(TextureRequest { path: self.normal_texture.clone(), type_: String::from_str("texture_normal") });
        }
        assert(requests_view(r@) =~= material_requests(*self));
        r
    }
}

/// The meshes of an asset file, the textures loaded for them so far, and
/// the directory that texture paths are relative to.
#[derive(Debug)]
pub struct Model<V> {
    pub meshes: Vec<Mesh<V>>,
    pub textures_loaded: Vec<Texture>,
    pub directory: String,
}

/// The commands that draw the first `n` meshes, in order.
pub open spec fn meshes_draw_commands<V>(program: u32, meshes: Seq<Mesh<V>>, n: int) -> Seq<CommandView>
    decreases n,
{
    if n <= 0 {
        Seq::empty()
    } else {
        meshes_draw_commands(program, meshes, n - 1) + draw_commands(
            program,
            meshes[n - 1].textures@,
            meshes[n - 1].vao,
            meshes[n - 1].indices@.len() as int,
        )
    }
}

impl<V> Model<V> {
    pub open spec fn wf(&self) -> bool {
        &&& paths_unique(self.textures_loaded@)
        &&& forall|i: int| 0 <= i < self.meshes@.len() ==> (#[trigger] self.meshes@[i]).wf()
    }

    /// An empty model whose textures are looked up under `directory`.
    pub fn new(directory: String) -> (r: Model<V>)
        ensures
            r.wf(),
            r.meshes@.len() == 0,
            r.textures_loaded@.len() == 0,
            r.directory == directory,
    {
        Model { meshes: Vec::new(), textures_loaded: Vec::new(), directory }
    }

    /// The texture loaded from `path` before, if any.
    pub fn cached_texture(&self, path: &str) -> (r: Option<Texture>)
        ensures
            r == cached(self.textures_loaded@, path@),
    {
        let ghost ts = self.textures_loaded@;
        assert(ts.subrange(0, ts.len() as int) =~= ts);
        let mut i: usize = 0;
        while i < self.textures_loaded.len()
            invariant
                ts == self.textures_loaded@,
                i <= ts.len(),
                cached(ts, path@) == cached(ts.subrange(i as int, ts.len() as int), path@),
            decreases ts.len() - i,
        {
            let ghost rest = ts.subrange(i as int, ts.len() as int);
            if self.textures_loaded[i].path == path.to_owned() {
                return Some(self.textures_loaded[i].clone());
            }
            assert(rest.drop_first() =~= ts.subrange(i + 1, ts.len() as int));
            i = i + 1;
        }
        None
    }

    /// The file that a texture path names: the path under the model's
    /// directory.
    pub fn texture_file_name(&self, path: &str) -> (r: String)
        ensures
            r@ == self.directory@ + "/"@ + path@,
    {
        let mut r = self.directory.clone();
        r.append("/");
        r.append(path);
        r
    }

    /// Decides how the texture at `path` is obtained: shared from the cache,
    /// or loaded from the file under the model's directory.
    pub fn request_texture(&self, path: &str) -> (r: TextureLookup)
        ensures
            match cached(self.textures_loaded@, path@) {
                Some(t) => r == TextureLookup::Cached(t),
                None => r matches TextureLookup::Load { file_name } && file_name@ == self.directory@ + "/"@
                    + path@,
            },
    {
        match self.cached_texture(path) {
            Some(t) => TextureLookup::Cached(t),
            None => TextureLookup::Load { file_name: self.texture_file_name(path) },
        }
    }

    /// Records that the file at `path` was loaded as device texture `id` of
    /// kind `kind_name`, and returns its descriptor. A path that is cached
    /// already keeps its first texture, which is returned.
    pub fn remember_texture(&mut self, id: u32, kind_name: &str, path: &str) -> (r: Texture)
        requires
            old(self).wf(),
        ensures
            final(self).wf(),
            final(self).meshes == old(self).meshes,
            final(self).directory == old(self).directory,
            match cached(old(self).textures_loaded@, path@) {
                Some(t) => r == t && final(self).textures_loaded == old(self).textures_loaded,
                None => {
                    &&& r.id == id
                    &&& r.type_@ == kind_name@
                    &&& r.path@ == path@
                    &&& final(self).textures_loaded@ == old(self).textures_loaded@.push(r)
                },
            },
            cached(final(self).textures_loaded@, path@) == Some(r),
    {
        match self.cached_texture(path) {
            Some(t) => t,
            None => {
                let t = Texture { id, type_: kind_name.to_owned(), path: path.to_owned() };
                proof {
                    lemma_second_load_hits_cache(self.textures_loaded@, t);
                }
                self.textures_loaded.push(t.clone());
                t
            },
        }
    }

    /// Adds a mesh to the model.
    pub fn push_mesh(&mut self, mesh: Mesh<V>)
        requires
            old(self).wf(),
            mesh.wf(),
        ensures
            final(self).wf(),
            final(self).meshes@ == old(self).meshes@.push(mesh),
            final(self).textures_loaded == old(self).textures_loaded,
            final(self).directory == old(self).directory,
    {
        self.meshes.push(mesh);
        assert forall|i: int| 0 <= i < self.meshes@.len() implies (#[trigger] self.meshes@[i]).wf() by {
            if i < old(self).meshes@.len() {
                assert(self.meshes@[i] == old(self).meshes@[i]);
            }
        }
    }

    /// Builds a mesh from one object of the asset file and adds it; on an
    /// error the model is unchanged.
    pub fn add_mesh(&mut self, vertices: Vec<V>, indices: Vec<u32>, textures: Vec<Texture>) -> (r: Result<
        (),
        MeshError,
    >)
        requires
            old(self).wf(),
        ensures
            final(self).wf(),
            final(self).textures_loaded == old(self).textures_loaded,
            final(self).directory == old(self).directory,
            r is Ok <==> (sizes_fit(indices@.len() as int, textures@.len() as int) && indices_valid(
                indices@,
                vertices@.len() as int,
            ) && kinds_known(textures@)),
            r is Ok ==> final(self).meshes@.len() == old(self).meshes@.len() + 1 && final(self).meshes@.drop_last()
                == old(self).meshes@ && final(self).meshes@.last().vertices == vertices
                && final(self).meshes@.last().indices == indices && final(self).meshes@.last().textures == textures,
            r is Err ==> final(self).meshes == old(self).meshes,
    {
        match Mesh::new(vertices, indices, textures) {
            Ok(mesh) => {
                self.push_mesh(mesh);
                assert(self.meshes@.drop_last() =~= old(self).meshes@);
                Ok(())
            },
            Err(e) => Err(e),
        }
    }

    /// The commands that draw every mesh with `shader`, in order.
    pub fn draw(&self, shader: &Shader) -> (r: Vec<GlCommand>)
        requires
            self.wf(),
        ensures
            commands_view(r@) == meshes_draw_commands(shader.id, self.meshes@, self.meshes@.len() as int),
    {
        let mut r: Vec<GlCommand> = Vec::new();
        let mut i: usize = 0;
        while i < self.meshes.len()
            invariant
                self.wf(),
                i <= self.meshes@.len(),
                commands_view(r@) == meshes_draw_commands(shader.id, self.meshes@, i as int),
            decreases self.meshes@.len() - i,
        {
            let mut cmds = self.meshes[i].draw(shader);
            let ghost prev = r@;
            let ghost added = cmds@;
            r.append(&mut cmds);
            assert(commands_view(r@) =~= commands_view(prev) + commands_view(added));
            i = i + 1;
        }
        r
    }
}

proof fn lemma_cached_push_miss(ts: Seq<Texture>, t: Texture, path: Seq<char>)
    requires
        cached(ts, path) is None,
    ensures
        cached(ts.push(t), path) == if t.path@ == path {
            Some(t)
        } else {
            None
        },
    decreases ts.len(),
{
    if ts.len() > 0 {
        assert(ts[0].path@ != path);
        assert(ts.push(t)[0] == ts[0]);
        assert(ts.push(t).drop_first() =~= ts.drop_first().push(t));
        lemma_cached_push_miss(ts.drop_first(), t, path);
    } else {
        assert(ts.push(t).drop_first() =~= Seq::<Texture>::empty());
        assert(cached(Seq::<Texture>::empty(), path) is None);
        assert(ts.push(t)[0] == t);
    }
}

proof fn lemma_cached_is_none(ts: Seq<Texture>, path: Seq<char>)
    requires
        cached(ts, path) is None,
    ensures
        forall|i: int| 0 <= i < ts.len() ==> (#[trigger] ts[i]).path@ != path,
    decreases ts.len(),
{
    if ts.len() > 0 {
        lemma_cached_is_none(ts.drop_first(), path);
        assert forall|i: int| 0 <= i < ts.len() implies (#[trigger] ts[i]).path@ != path by {
            if i > 0 {
                assert(ts[i] == ts.drop_first()[i - 1]);
            }
        }
    }
}

/// A texture remembered after a cache miss is what every later lookup of its
/// path finds: a second load of the same path through the same model is a
/// cache hit that yields the same handle, and the cache keeps one entry per
/// path.
pub proof fn lemma_second_load_hits_cache(ts: Seq<Texture>, t: Texture)
    requires
        paths_unique(ts),
        cached(ts, t.path@) is None,
    ensures
        paths_unique(ts.push(t)),
        cached(ts.push(t), t.path@) == Some(t),
{
    lemma_cached_push_miss(ts, t, t.path@);
    lemma_cached_is_none(ts, t.path@);
    let ts2 = ts.push(t);
    assert forall|i: int, j: int| 0 <= i < j < ts2.len() implies (#[trigger] ts2[i]).path@ != (
    #[trigger] ts2[j]).path@ by {
        if j < ts.len() {
            assert(ts2[i] == ts[i] && ts2[j] == ts[j]);
        } else {
            assert(ts2[i] == ts[i]);
        }
    }
}

} // verus!
