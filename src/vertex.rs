use vstd::prelude::*;

verus! {

/// The format of one attribute of a vertex.
#[derive(Clone, Copy, Debug, PartialEq, Eq, Structural)]
pub enum VertexFormat {
    /// Three 32-bit floats.
    Float32x3,
}

impl VertexFormat {
    /// Size in bytes of one value of this format.
    pub open spec fn spec_size(self) -> nat {
        match self {
            VertexFormat::Float32x3 => 12,
        }
    }

    pub fn size(&self) -> (r: u64)
        ensures
            r == self.spec_size(),
    {
        match self {
            VertexFormat::Float32x3 => 12,
        }
    }
}

/// Whether the buffer advances once per vertex or once per instance.
#[derive(Clone, Copy, Debug, PartialEq, Eq, Structural)]
pub enum StepMode {
    Vertex,
    Instance,
}

/// Where one attribute lies in a vertex, and where the shader reads it.
#[derive(Clone, Copy, Debug, PartialEq, Eq, Structural)]
pub struct VertexAttribute {
    pub offset: u64,
    pub shader_location: u32,
    pub format: VertexFormat,
}

/// How a vertex buffer is laid out: the distance between vertices, and the
/// attributes within each.
#[derive(Clone, Debug)]
pub struct VertexBufferLayout {
    pub array_stride: u64,
    pub step_mode: StepMode,
    pub attributes: Vec<VertexAttribute>,
}

/// The bytes taken by the first `n` attributes of formats `f`.
pub open spec fn packed_size(f: Seq<VertexFormat>, n: int) -> nat
    decreases n,
{
    if n <= 0 {
        0
    } else {
        packed_size(f, n - 1) + f[n - 1].spec_size()
    }
}

proof fn lemma_packed_size_bound(f: Seq<VertexFormat>, n: int)
    requires
        0 <= n <= f.len(),
    ensures
        packed_size(f, n) <= 12 * n,
    decreases n,
{
    if n > 0 {
        lemma_packed_size_bound(f, n - 1);
    }
}

/// A per-vertex layout with the attributes of `formats` side by side, in that
/// order and without gaps: attribute `i` lies after the attributes before it,
/// is read by the shader at location `i`, and a vertex is as wide as all of
/// them together.
pub fn packed_layout(formats: &Vec<VertexFormat>) -> (r: VertexBufferLayout)
    requires
        formats@.len() <= u32::MAX,
    ensures
        r.array_stride == packed_size(formats@, formats@.len() as int),
        r.step_mode == StepMode::Vertex,
        r.attributes@.len() == formats@.len(),
        forall|i: int|
            0 <= i < formats@.len() ==> #[trigger] r.attributes@[i] == (VertexAttribute {
                offset: packed_size(formats@, i) as u64,
                shader_location: i as u32,
                format: formats@[i],
            }),
{
    let mut attributes: Vec<VertexAttribute> = Vec::new();
    let mut offset: u64 = 0;
    let mut i: usize = 0;
    while i < formats.len()
        invariant
            i <= formats@.len() <= u32::MAX,
            offset == packed_size(formats@, i as int),
            attributes@.len() == i,
            forall|j: int|
                0 <= j < i ==> #[trigger] attributes@[j] == (VertexAttribute {
                    offset: packed_size(formats@, j) as u64,
                    shader_location: j as u32,
                    format: formats@[j],
                }),
        decreases formats@.len() - i,
    {
        proof {
            lemma_packed_size_bound(formats@, i as int + 1);
        }
        let format = formats[i];
        attributes.push(VertexAttribute { offset, shader_location: i as u32, format });
        offset = offset + format.size();
        i = i + 1;
    }
    VertexBufferLayout { array_stride: offset, step_mode: StepMode::Vertex, attributes }
}

/// The layout of the vertices drawn here: a position then a color, each three
/// floats.
pub fn vertex_desc() -> (r: VertexBufferLayout)
    ensures
        r.array_stride == 24,
        r.step_mode == StepMode::Vertex,
        r.attributes@ == seq![
            VertexAttribute { offset: 0, shader_location: 0, format: VertexFormat::Float32x3 },
            VertexAttribute { offset: 12, shader_location: 1, format: VertexFormat::Float32x3 },
        ],
{
    let formats = vec![VertexFormat::Float32x3, VertexFormat::Float32x3];
    let r = packed_layout(&formats);
    proof {
        reveal_with_fuel(packed_size, 3);
    }
    assert(r.attributes@ =~= seq![
        VertexAttribute { offset: 0, shader_location: 0, format: VertexFormat::Float32x3 },
        VertexAttribute { offset: 12, shader_location: 1, format: VertexFormat::Float32x3 },
    ]);
    r
}

} // verus!
