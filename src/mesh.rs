//! Drawable geometry: index data, textures and the buffer objects that hold
//! them, and the exact sequence of graphics commands that draws them.
use vstd::prelude::*;

use crate::shader::Shader;

verus! {

/// The role a texture plays in a material.
#[derive(Clone, Copy, Debug, PartialEq, Eq, Structural)]
pub enum TextureType {
    Diffuse,
    Specular,
}

/// The uniform-name stem of a texture role.
pub open spec fn role_name(t: TextureType) -> Seq<char> {
    match t {
        TextureType::Diffuse => "texture_diffuse"@,
        TextureType::Specular => "texture_specular"@,
    }
}

/// The character of one decimal digit.
pub open spec fn digit_char(d: int) -> char {
    if d == 0 {
        '0'
    } else if d == 1 {
        '1'
    } else if d == 2 {
        '2'
    } else if d == 3 {
        '3'
    } else if d == 4 {
        '4'
    } else if d == 5 {
        '5'
    } else if d == 6 {
        '6'
    } else if d == 7 {
        '7'
    } else if d == 8 {
        '8'
    } else {
        '9'
    }
}

/// The decimal digits of `n`, most significant first, without leading zeros.
pub open spec fn decimal(n: nat) -> Seq<char>
    decreases n,
{
    if n < 10 {
        seq![digit_char(n as int)]
    } else {
        decimal(n / 10).push(digit_char((n % 10) as int))
    }
}

/// The sampler uniform that a texture of role `t` bound to texture unit
/// `unit` is announced under: `material.texture_diffuse0` and the like.
pub open spec fn sampler_name(t: TextureType, unit: nat) -> Seq<char> {
    "material."@ + role_name(t) + decimal(unit)
}

/// A texture object and the role it plays.
#[derive(Clone, Copy, Debug, PartialEq, Eq, Structural)]
pub struct Texture {
    pub id: u32,
    pub texture_type: TextureType,
}

impl Texture {
    pub fn new(id: u32, texture_type: TextureType) -> (r: Texture)
        ensures
            r.id == id,
            r.texture_type == texture_type,
    {
        Texture { id, texture_type }
    }
}

impl TextureType {
    /// The uniform-name stem of this role.
    pub fn role(&self) -> (r: &'static str)
        ensures
            r@ == role_name(*self),
    {
        match self {
            TextureType::Diffuse => {
                proof {
                    reveal_strlit("texture_diffuse");
                }
                "texture_diffuse"
            },
            TextureType::Specular => {
                proof {
                    reveal_strlit("texture_specular");
                }
                "texture_specular"
            },
        }
    }
}

fn digit_str(d: usize) -> (r: &'static str)
    requires
        d < 10,
    ensures
        r@ == seq![digit_char(d as int)],
{
    proof {
        reveal_strlit("0");
        reveal_strlit("1");
        reveal_strlit("2");
        reveal_strlit("3");
        reveal_strlit("4");
        reveal_strlit("5");
        reveal_strlit("6");
        reveal_strlit("7");
        reveal_strlit("8");
        reveal_strlit("9");
    }
    let r = if d == 0 {
        "0"
    } else if d == 1 {
        "1"
    } else if d == 2 {
        "2"
    } else if d == 3 {
        "3"
    } else if d == 4 {
        "4"
    } else if d == 5 {
        "5"
    } else if d == 6 {
        "6"
    } else if d == 7 {
        "7"
    } else if d == 8 {
        "8"
    } else {
        "9"
    };
    assert(r@ =~= seq![digit_char(d as int)]);
    r
}

fn append_decimal(s: &mut String, n: usize)
    ensures
        final(s)@ == old(s)@ + decimal(n as nat),
    decreases n,
{
    if n >= 10 {
        append_decimal(s, n / 10);
    }
    s.append(digit_str(n % 10));
    proof {
        if n >= 10 {
            assert(old(s)@ + decimal((n / 10) as nat) + seq![digit_char((n % 10) as int)]
                =~= old(s)@ + decimal(n as nat));
        } else {
            assert(old(s)@ + seq![digit_char((n % 10) as int)] =~= old(s)@ + decimal(n as nat));
        }
    }
}

/// The name of the sampler uniform for a texture of role `t` on texture unit
/// `unit`.
pub fn sampler_uniform_name(t: TextureType, unit: usize) -> (r: String)
    ensures
        r@ == sampler_name(t, unit as nat),
{
    let mut s = String::new();
    proof {
        reveal_strlit("material.");
    }
    s.append("material.");
    s.append(t.role());
    append_decimal(&mut s, unit);
    s
}

/// Bytes from the start of one vertex to the start of the next: position
/// (three `f32`), normal (three `f32`), texture coordinate (two `f32`).
pub const VERTEX_STRIDE: usize = 32;

/// One attribute of the fixed vertex layout.
#[derive(Clone, Copy, Debug, PartialEq, Eq, Structural)]
pub struct VertexAttribute {
    /// The attribute's location in the vertex shader.
    pub location: u32,
    /// How many `f32` components it has.
    pub components: u32,
    /// Its byte offset within a vertex.
    pub offset: usize,
}

/// The vertex layout: position at location 0 and offset 0, normal at
/// location 1 and offset 12, texture coordinate at location 2 and offset 24,
/// all with stride `VERTEX_STRIDE`.
pub fn vertex_attributes() -> (r: Vec<VertexAttribute>)
    ensures
        r@ == seq![
            VertexAttribute { location: 0, components: 3, offset: 0 },
            VertexAttribute { location: 1, components: 3, offset: 12 },
            VertexAttribute { location: 2, components: 2, offset: 24 },
        ],
{
    let mut r: Vec<VertexAttribute> = Vec::new();
    r.push(VertexAttribute { location: 0, components: 3, offset: 0 });
    r.push(VertexAttribute { location: 1, components: 3, offset: 12 });
    r.push(VertexAttribute { location: 2, components: 2, offset: 24 });
    assert(r@ =~= seq![
        VertexAttribute { location: 0, components: 3, offset: 0 },
        VertexAttribute { location: 1, components: 3, offset: 12 },
        VertexAttribute { location: 2, components: 2, offset: 24 },
    ]);
    r
}

/// The index data as uploaded to an index buffer of 32-bit unsigned
/// integers; `None` when an index does not fit in 32 bits.
pub fn index_data(indices: &Vec<usize>) -> (r: Option<Vec<u32>>)
    ensures
        r is Some <==> forall|i: int| 0 <= i < indices@.len() ==> indices@[i] <= u32::MAX,
        r matches Some(v) ==> v@.len() == indices@.len() && forall|i: int|
            0 <= i < indices@.len() ==> v@[i] as usize == #[trigger] indices@[i],
{
    let mut v: Vec<u32> = Vec::new();
    let mut k: usize = 0;
    while k < indices.len()
        invariant
            k <= indices@.len(),
            v@.len() == k,
            forall|i: int| 0 <= i < k ==> indices@[i] <= u32::MAX,
            forall|i: int| 0 <= i < k ==> v@[i] as usize == #[trigger] indices@[i],
        decreases indices@.len() - k,
    {
        let x = indices[k];
        if x > 0xffff_ffffusize {
            return None;
        }
        v.push(x as u32);
        k = k + 1;
    }
    Some(v)
}

/// The buffer objects a mesh owns: vertex array, vertex buffer and index
/// buffer.
#[derive(Clone, Copy, Debug, PartialEq, Eq, Structural)]
pub struct MeshBuffers {
    pub vao: u32,
    pub vbo: u32,
    pub ebo: u32,
}

/// One graphics command issued while drawing.
#[derive(Clone, Debug, PartialEq, Eq)]
pub enum DrawCommand {
    /// Make the program current.
    UseProgram(u32),
    /// Select texture unit `n`.
    ActiveTexture(usize),
    /// Bind a two-dimensional texture to the selected unit.
    BindTexture(u32),
    /// Set the sampler uniform `name` to texture unit `unit`.
    SetSampler { name: String, unit: usize },
    /// Bind a vertex array (0 unbinds).
    BindVertexArray(u32),
    /// Draw `count` indices as a triangle list.
    DrawElements(usize),
}

/// The three commands that bind `t` to texture unit `i`, at their place in
/// a draw sequence.
pub open spec fn binds_texture(cmds: Seq<DrawCommand>, i: int, t: Texture) -> bool {
    &&& cmds[1 + 3 * i] == DrawCommand::ActiveTexture(i as usize)
    &&& cmds[2 + 3 * i] == DrawCommand::BindTexture(t.id)
    &&& cmds[3 + 3 * i] is SetSampler
    &&& cmds[3 + 3 * i]->name@ == sampler_name(t.texture_type, i as nat)
    &&& cmds[3 + 3 * i]->unit == i
}

/// The commands that draw `count` indices of vertex array `vao` with
/// `program`: make the program current, bind each texture in order to the
/// unit of its position and announce it under its sampler name, then bind
/// the vertex array, draw, and unbind it.
pub open spec fn is_draw_sequence(
    cmds: Seq<DrawCommand>,
    program: u32,
    textures: Seq<Texture>,
    vao: u32,
    count: nat,
) -> bool {
    let n = textures.len() as int;
    &&& cmds.len() == 3 * n + 4
    &&& cmds[0] == DrawCommand::UseProgram(program)
    &&& forall|i: int| 0 <= i < n ==> #[trigger] binds_texture(cmds, i, textures[i])
    &&& cmds[3 * n + 1] == DrawCommand::BindVertexArray(vao)
    &&& cmds[3 * n + 2] == DrawCommand::DrawElements(count as usize)
    &&& cmds[3 * n + 3] == DrawCommand::BindVertexArray(0)
}

/// What a mesh holds.
pub struct MeshView {
    pub vertex_count: nat,
    pub indices: Seq<usize>,
    pub textures: Seq<Texture>,
    pub buffers: MeshBuffers,
}

/// Indexed triangle-list geometry with its textures and the buffer objects
/// its data was uploaded to.
pub struct Mesh {
    vertex_count: usize,
    indices: Vec<usize>,
    textures: Vec<Texture>,
    buffers: MeshBuffers,
}

impl View for Mesh {
    type V = MeshView;

    closed spec fn view(&self) -> MeshView {
        MeshView {
            vertex_count: self.vertex_count as nat,
            indices: self.indices@,
            textures: self.textures@,
            buffers: self.buffers,
        }
    }
}

impl Mesh {
    /// Every index names one of the vertices.
    pub open spec fn well_formed(&self) -> bool {
        forall|i: int| 0 <= i < self@.indices.len() ==> #[trigger] self@.indices[i] < self@.vertex_count
    }

    /// A mesh over `vertex_count` vertices, already uploaded to `buffers`.
    pub fn new(
        vertex_count: usize,
        indices: Vec<usize>,
        textures: Vec<Texture>,
        buffers: MeshBuffers,
    ) -> (m: Mesh)
        requires
            forall|i: int| 0 <= i < indices@.len() ==> #[trigger] indices@[i] < vertex_count,
        ensures
            m@.vertex_count == vertex_count,
            m@.indices == indices@,
            m@.textures == textures@,
            m@.buffers == buffers,
            m.well_formed(),
    {
        Mesh { vertex_count, indices, textures, buffers }
    }

    pub fn vertex_count(&self) -> (r: usize)
        ensures
            r == self@.vertex_count,
    {
        self.vertex_count
    }

    pub fn indices(&self) -> (r: &Vec<usize>)
        ensures
            r@ == self@.indices,
    {
        &self.indices
    }

    pub fn textures(&self) -> (r: &Vec<Texture>)
        ensures
            r@ == self@.textures,
    {
        &self.textures
    }

    pub fn buffers(&self) -> (r: MeshBuffers)
        ensures
            r == self@.buffers,
    {
        self.buffers
    }

    /// The commands that draw this mesh with `shader`.
    pub fn draw(&self, shader: &Shader) -> (r: Vec<DrawCommand>)
        ensures
            is_draw_sequence(
                r@,
                shader@,
                self@.textures,
                self@.buffers.vao,
                self@.indices.len(),
            ),
    {
        let mut cmds: Vec<DrawCommand> = Vec::new();
        cmds.push(DrawCommand::UseProgram(shader.program()));
        let n = self.textures.len();
        let mut i: usize = 0;
        while i < n
            invariant
                n == self.textures@.len(),
                i <= n,
                cmds@.len() == 3 * i + 1,
                cmds@[0] == DrawCommand::UseProgram(shader@),
                forall|j: int| 0 <= j < i ==> #[trigger] binds_texture(cmds@, j, self.textures@[j]),
            decreases n - i,
        {
            let t = self.textures[i];
            let ghost before = cmds@;
            cmds.push(DrawCommand::ActiveTexture(i));
            cmds.push(DrawCommand::BindTexture(t.id));
            cmds.push(DrawCommand::SetSampler { name: sampler_uniform_name(t.texture_type, i), unit: i });
            assert forall|j: int| 0 <= j < i + 1 implies #[trigger] binds_texture(cmds@, j, self.textures@[j]) by {
                if j < i {
                    assert(binds_texture(before, j, self.textures@[j]));
                }
            }
            i = i + 1;
        }
        let ghost body = cmds@;
        cmds.push(DrawCommand::BindVertexArray(self.buffers.vao));
        cmds.push(DrawCommand::DrawElements(self.indices.len()));
        cmds.push(DrawCommand::BindVertexArray(0));
        assert forall|j: int| 0 <= j < n implies #[trigger] binds_texture(cmds@, j, self.textures@[j]) by {
            assert(binds_texture(body, j, self.textures@[j]));
        }
        cmds
    }
}

/// Drawing without textures binds no texture and sets no sampler: the
/// sequence is the program, the vertex array, one draw of every index, and
/// the unbinding, nothing else.
pub proof fn lemma_untextured_draw(cmds: Seq<DrawCommand>, program: u32, vao: u32, count: nat)
    requires
        is_draw_sequence(cmds, program, Seq::empty(), vao, count),
    ensures
        cmds == seq![
            DrawCommand::UseProgram(program),
            DrawCommand::BindVertexArray(vao),
            DrawCommand::DrawElements(count as usize),
            DrawCommand::BindVertexArray(0),
        ],
        forall|k: int|
            0 <= k < cmds.len() ==> !(#[trigger] cmds[k] is ActiveTexture) && !(cmds[k] is BindTexture)
                && !(cmds[k] is SetSampler),
{
    assert(cmds =~= seq![
        DrawCommand::UseProgram(program),
        DrawCommand::BindVertexArray(vao),
        DrawCommand::DrawElements(count as usize),
        DrawCommand::BindVertexArray(0),
    ]);
}

} // verus!
