//! Driver commands, as plain values.
//!
//! A `GlCommand` names one OpenGL ES call together with its arguments. Data
//! that only the caller holds (vertex records, index arrays, pixels, the
//! program that is in use) is referred to, not copied.
use vstd::prelude::*;

verus! {

/// A driver command whose uniform names are of type `S`: `String` for the
/// commands that are executed ([`GlCommand`]), `Seq<char>` for their view.
#[derive(Clone, Debug, PartialEq, Eq)]
pub enum Command<S> {
    /// `glUseProgram(program)`.
    UseProgram { program: u32 },
    /// `glActiveTexture(unit)`; `unit` is `GL_TEXTURE0 + n`.
    ActiveTexture { unit: u32 },
    /// `glUniform1i(glGetUniformLocation(program, name), value)`.
    SetUniformInt { program: u32, name: S, value: i32 },
    /// `glBindTexture(target, texture)`.
    BindTexture { target: u32, texture: u32 },
    /// `glBindVertexArray(vao)`.
    BindVertexArray { vao: u32 },
    /// `glBindBuffer(target, buffer)`.
    BindBuffer { target: u32, buffer: u32 },
    /// `glBufferData(GL_ARRAY_BUFFER, <the mesh's vertex records>, GL_STATIC_DRAW)`.
    UploadVertices,
    /// `glBufferData(GL_ELEMENT_ARRAY_BUFFER, <the mesh's indices>, GL_STATIC_DRAW)`.
    UploadIndices,
    /// `glEnableVertexAttribArray(index)`.
    EnableVertexAttribArray { index: u32 },
    /// `glVertexAttribPointer(index, size, GL_FLOAT, false, stride, offset)`.
    VertexAttribPointer { index: u32, size: i32, stride: i32, offset: u32 },
    /// `glDrawElements(GL_TRIANGLES, count, GL_UNSIGNED_INT, 0)`.
    DrawElements { count: i32 },
    /// `glTexImage2D(target, 0, format, width, height, 0, format,
    /// GL_UNSIGNED_BYTE, <the image's pixels>)`.
    TexImage2D { target: u32, format: u32, width: i32, height: i32 },
    /// `glGenerateMipmap(target)`.
    GenerateMipmap { target: u32 },
    /// `glTexParameteri(target, pname, value)`.
    TexParameter { target: u32, pname: u32, value: i32 },
}

pub type GlCommand = Command<String>;

pub type CommandView = Command<Seq<char>>;

impl View for Command<String> {
    type V = Command<Seq<char>>;

    open spec fn view(&self) -> Command<Seq<char>> {
        match self {
            Command::UseProgram { program } => Command::UseProgram { program: *program },
            Command::ActiveTexture { unit } => Command::ActiveTexture { unit: *unit },
            Command::SetUniformInt { program, name, value } => Command::SetUniformInt {
                program: *program,
                name: name@,
                value: *value,
            },
            Command::BindTexture { target, texture } => Command::BindTexture {
                target: *target,
                texture: *texture,
            },
            Command::BindVertexArray { vao } => Command::BindVertexArray { vao: *vao },
            Command::BindBuffer { target, buffer } => Command::BindBuffer {
                target: *target,
                buffer: *buffer,
            },
            Command::UploadVertices => Command::UploadVertices,
            Command::UploadIndices => Command::UploadIndices,
            Command::EnableVertexAttribArray { index } => Command::EnableVertexAttribArray {
                index: *index,
            },
            Command::VertexAttribPointer { index, size, stride, offset } =>
                Command::VertexAttribPointer {
                index: *index,
                size: *size,
                stride: *stride,
                offset: *offset,
            },
            Command::DrawElements { count } => Command::DrawElements { count: *count },
            Command::TexImage2D { target, format, width, height } => Command::TexImage2D {
                target: *target,
                format: *format,
                width: *width,
                height: *height,
            },
            Command::GenerateMipmap { target } => Command::GenerateMipmap { target: *target },
            Command::TexParameter { target, pname, value } => Command::TexParameter {
                target: *target,
                pname: *pname,
                value: *value,
            },
        }
    }
}

/// The view of each command of a list, in order.
pub open spec fn commands_view(cmds: Seq<GlCommand>) -> Seq<CommandView> {
    cmds.map_values(|c: GlCommand| c@)
}

} // verus!
