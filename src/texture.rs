//! Textures: the descriptor that meshes share, the pixel format that a
//! decoded image is uploaded with, and the commands that upload it.
use vstd::prelude::*;
use crate::command::GlCommand;
use crate::gl;

verus! {

/// A texture object on the device, with its semantic kind
/// (`texture_diffuse`, ...) and the path that it was loaded from.
#[derive(Debug, PartialEq, Eq)]
pub struct Texture {
    pub id: u32,
    pub type_: String,
    pub path: String,
}

impl Clone for Texture {
    fn clone(&self) -> (r: Self)
        ensures
            r == *self,
    {
        Texture { id: self.id, type_: self.type_.clone(), path: self.path.clone() }
    }
}

/// Channel layout of a decoded 8-bit image.
#[derive(Clone, Copy, Debug, PartialEq, Eq, Structural)]
pub enum PixelLayout {
    Luma8,
    LumaA8,
    Rgb8,
    Rgba8,
    /// Any other layout (16-bit, floating point, BGR, ...).
    Other,
}

#[derive(Clone, Copy, Debug, PartialEq, Eq, Structural)]
pub enum TextureError {
    /// The image is not 8-bit gray, gray-alpha, RGB or RGBA.
    UnsupportedFormat,
    /// A dimension does not fit the driver's signed size type.
    TooLarge,
}

/// How texture coordinates outside [0, 1] are resolved.
#[derive(Clone, Copy, Debug, PartialEq, Eq, Structural)]
pub enum WrapMode {
    Repeat,
    ClampToEdge,
}

/// The format a layout is uploaded with: one channel as red, two as
/// red-green, three as RGB, four as RGBA.
pub open spec fn layout_format(layout: PixelLayout) -> Option<u32> {
    match layout {
        PixelLayout::Luma8 => Some(gl::GL_RED),
        PixelLayout::LumaA8 => Some(gl::GL_RG),
        PixelLayout::Rgb8 => Some(gl::GL_RGB),
        PixelLayout::Rgba8 => Some(gl::GL_RGBA),
        PixelLayout::Other => None,
    }
}

pub open spec fn wrap_value(wrap: WrapMode) -> i32 {
    match wrap {
        WrapMode::Repeat => gl::GL_REPEAT as i32,
        WrapMode::ClampToEdge => gl::GL_CLAMP_TO_EDGE as i32,
    }
}

/// The commands that upload a 2D image as mip level 0 of `texture`, build its
/// mipmaps and set the default sampling policy.
pub open spec fn upload_2d_commands(
    texture: u32,
    format: u32,
    width: i32,
    height: i32,
    wrap: WrapMode,
) -> Seq<GlCommand> {
    seq![
        GlCommand::BindTexture { target: gl::GL_TEXTURE_2D, texture },
        GlCommand::TexImage2D { target: gl::GL_TEXTURE_2D, format, width, height },
        GlCommand::GenerateMipmap { target: gl::GL_TEXTURE_2D },
        GlCommand::TexParameter { target: gl::GL_TEXTURE_2D, pname: gl::GL_TEXTURE_WRAP_S, value: wrap_value(wrap) },
        GlCommand::TexParameter { target: gl::GL_TEXTURE_2D, pname: gl::GL_TEXTURE_WRAP_T, value: wrap_value(wrap) },
        GlCommand::TexParameter {
            target: gl::GL_TEXTURE_2D,
            pname: gl::GL_TEXTURE_MIN_FILTER,
            value: gl::GL_LINEAR_MIPMAP_LINEAR as i32,
        },
        GlCommand::TexParameter { target: gl::GL_TEXTURE_2D, pname: gl::GL_TEXTURE_MAG_FILTER, value: gl::GL_LINEAR as i32 },
    ]
}

pub fn pixel_format(layout: PixelLayout) -> (r: Result<u32, TextureError>)
    ensures
        match layout_format(layout) {
            Some(f) => r == Ok::<u32, TextureError>(f),
            None => r == Err::<u32, TextureError>(TextureError::UnsupportedFormat),
        },
{
    match layout {
        PixelLayout::Luma8 => Ok(gl::GL_RED),
        PixelLayout::LumaA8 => Ok(gl::GL_RG),
        PixelLayout::Rgb8 => Ok(gl::GL_RGB),
        PixelLayout::Rgba8 => Ok(gl::GL_RGBA),
        PixelLayout::Other => Err(TextureError::UnsupportedFormat),
    }
}

fn wrap_param(wrap: WrapMode) -> (r: i32)
    ensures
        r == wrap_value(wrap),
{
    match wrap {
        WrapMode::Repeat => gl::GL_REPEAT as i32,
        WrapMode::ClampToEdge => gl::GL_CLAMP_TO_EDGE as i32,
    }
}

/// Plans the upload of a decoded `width` x `height` image into `texture`.
/// Fails on a layout other than 8-bit gray, gray-alpha, RGB or RGBA, and on
/// a dimension above `i32::MAX`.
pub fn texture_upload(texture: u32, width: u32, height: u32, layout: PixelLayout, wrap: WrapMode) -> (r:
    Result<Vec<GlCommand>, TextureError>)
    ensures
        layout_format(layout) is None ==> r == Err::<Vec<GlCommand>, TextureError>(
            TextureError::UnsupportedFormat,
        ),
        layout_format(layout) is Some && (width > i32::MAX || height > i32::MAX) ==> r == Err::<
            Vec<GlCommand>,
            TextureError,
        >(TextureError::TooLarge),
        r is Ok <==> (layout_format(layout) is Some && width <= i32::MAX && height <= i32::MAX),
        r matches Ok(cmds) ==> cmds@ == upload_2d_commands(
            texture,
            layout_format(layout).unwrap(),
            width as i32,
            height as i32,
            wrap,
        ),
{
    let format = match pixel_format(layout) {
        Ok(f) => f,
        Err(e) => return Err(e),
    };
    if width > i32::MAX as u32 || height > i32::MAX as u32 {
        return Err(TextureError::TooLarge);
    }
    let w = wrap_param(wrap);
    let mut cmds: Vec<GlCommand> = Vec::new();
    cmds.push(GlCommand::BindTexture { target: gl::GL_TEXTURE_2D, texture });
    cmds.push(GlCommand::TexImage2D { target: gl::GL_TEXTURE_2D, format, width: width as i32, height: height as i32 });
    cmds.push(GlCommand::GenerateMipmap { target: gl::GL_TEXTURE_2D });
    cmds.push(GlCommand::TexParameter { target: gl::GL_TEXTURE_2D, pname: gl::GL_TEXTURE_WRAP_S, value: w });
    cmds.push(GlCommand::TexParameter { target: gl::GL_TEXTURE_2D, pname: gl::GL_TEXTURE_WRAP_T, value: w });
    cmds.push(
        GlCommand::TexParameter {
            target: gl::GL_TEXTURE_2D,
            pname: gl::GL_TEXTURE_MIN_FILTER,
            value: gl::GL_LINEAR_MIPMAP_LINEAR as i32,
        },
    );
    cmds.push(GlCommand::TexParameter { target: gl::GL_TEXTURE_2D, pname: gl::GL_TEXTURE_MAG_FILTER, value: gl::GL_LINEAR as i32 });
    assert(cmds@ =~= upload_2d_commands(texture, format, width as i32, height as i32, wrap));
    Ok(cmds)
}

/// Uploads of the first `n` cube faces, face `i` to target
/// `GL_TEXTURE_CUBE_MAP_POSITIVE_X + i`, as RGB.
pub open spec fn cube_face_commands(faces: Seq<(u32, u32)>, n: int) -> Seq<GlCommand>
    decreases n,
{
    if n <= 0 {
        Seq::empty()
    } else {
        cube_face_commands(faces, n - 1) + seq![
            GlCommand::TexImage2D {
                target: (gl::GL_TEXTURE_CUBE_MAP_POSITIVE_X + (n - 1)) as u32,
                format: gl::GL_RGB,
                width: faces[n - 1].0 as i32,
                height: faces[n - 1].1 as i32,
            },
        ]
    }
}

/// Binds the cube map, uploads each face, and sets linear filtering with
/// edge clamping on all three axes.
pub open spec fn cubemap_commands(texture: u32, faces: Seq<(u32, u32)>) -> Seq<GlCommand> {
    seq![GlCommand::BindTexture { target: gl::GL_TEXTURE_CUBE_MAP, texture }] + cube_face_commands(
        faces,
        faces.len() as int,
    ) + seq![
        GlCommand::TexParameter { target: gl::GL_TEXTURE_CUBE_MAP, pname: gl::GL_TEXTURE_MIN_FILTER, value: gl::GL_LINEAR as i32 },
        GlCommand::TexParameter { target: gl::GL_TEXTURE_CUBE_MAP, pname: gl::GL_TEXTURE_MAG_FILTER, value: gl::GL_LINEAR as i32 },
        GlCommand::TexParameter {
            target: gl::GL_TEXTURE_CUBE_MAP,
            pname: gl::GL_TEXTURE_WRAP_S,
            value: gl::GL_CLAMP_TO_EDGE as i32,
        },
        GlCommand::TexParameter {
            target: gl::GL_TEXTURE_CUBE_MAP,
            pname: gl::GL_TEXTURE_WRAP_T,
            value: gl::GL_CLAMP_TO_EDGE as i32,
        },
        GlCommand::TexParameter {
            target: gl::GL_TEXTURE_CUBE_MAP,
            pname: gl::GL_TEXTURE_WRAP_R,
            value: gl::GL_CLAMP_TO_EDGE as i32,
        },
    ]
}

/// Every face's width and height fit the driver's signed size type.
pub open spec fn faces_fit(faces: Seq<(u32, u32)>) -> bool {
    forall|i: int| 0 <= i < faces.len() ==> (#[trigger] faces[i]).0 <= i32::MAX && faces[i].1 <= i32::MAX
}

/// Plans the upload of a cube map from the width and height of each face,
/// in the order +X, -X, +Y, -Y, +Z, -Z.
pub fn cubemap_upload(texture: u32, faces: &Vec<(u32, u32)>) -> (r: Result<Vec<GlCommand>, TextureError>)
    requires
        faces@.len() <= 6,
    ensures
        r is Ok <==> faces_fit(faces@),
        !faces_fit(faces@) ==> r == Err::<Vec<GlCommand>, TextureError>(TextureError::TooLarge),
        r matches Ok(cmds) ==> cmds@ == cubemap_commands(texture, faces@),
{
    let mut cmds: Vec<GlCommand> = Vec::new();
    cmds.push(GlCommand::BindTexture { target: gl::GL_TEXTURE_CUBE_MAP, texture });
    let mut i: usize = 0;
    while i < faces.len()
        invariant
            faces@.len() <= 6,
            i <= faces@.len(),
            forall|k: int| 0 <= k < i ==> (#[trigger] faces@[k]).0 <= i32::MAX && faces@[k].1 <= i32::MAX,
            cmds@ == seq![GlCommand::BindTexture { target: gl::GL_TEXTURE_CUBE_MAP, texture }] + cube_face_commands(
                faces@,
                i as int,
            ),
        decreases faces@.len() - i,
    {
        let (w, h) = faces[i];
        if w > i32::MAX as u32 || h > i32::MAX as u32 {
            return Err(TextureError::TooLarge);
        }
        let ghost prev = cmds@;
        cmds.push(
            GlCommand::TexImage2D {
                target: gl::GL_TEXTURE_CUBE_MAP_POSITIVE_X + i as u32,
                format: gl::GL_RGB,
                width: w as i32,
                height: h as i32,
            },
        );
        assert(cmds@ =~= seq![GlCommand::BindTexture { target: gl::GL_TEXTURE_CUBE_MAP, texture }]
            + cube_face_commands(faces@, i + 1));
        i = i + 1;
    }
    cmds.push(GlCommand::TexParameter { target: gl::GL_TEXTURE_CUBE_MAP, pname: gl::GL_TEXTURE_MIN_FILTER, value: gl::GL_LINEAR as i32 });
    cmds.push(GlCommand::TexParameter { target: gl::GL_TEXTURE_CUBE_MAP, pname: gl::GL_TEXTURE_MAG_FILTER, value: gl::GL_LINEAR as i32 });
    cmds.push(
        GlCommand::TexParameter {
            target: gl::GL_TEXTURE_CUBE_MAP,
            pname: gl::GL_TEXTURE_WRAP_S,
            value: gl::GL_CLAMP_TO_EDGE as i32,
        },
    );
    cmds.push(
        GlCommand::TexParameter {
            target: gl::GL_TEXTURE_CUBE_MAP,
            pname: gl::GL_TEXTURE_WRAP_T,
            value: gl::GL_CLAMP_TO_EDGE as i32,
        },
    );
    cmds.push(
        GlCommand::TexParameter {
            target: gl::GL_TEXTURE_CUBE_MAP,
            pname: gl::GL_TEXTURE_WRAP_R,
            value: gl::GL_CLAMP_TO_EDGE as i32,
        },
    );
    assert(cmds@ =~= cubemap_commands(texture, faces@));
    Ok(cmds)
}

} // verus!
