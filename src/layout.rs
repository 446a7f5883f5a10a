//! Vertex-buffer layouts: attribute formats, byte offsets and strides of the
//! per-vertex and per-instance streams that a render pipeline reads.

use vstd::prelude::*;

verus! {

/// Shape of one vertex attribute, as the shader sees it.
#[derive(PartialEq, Eq, Structural, Clone, Copy, Debug)]
pub enum AttributeFormat {
    Float32x2,
    Float32x3,
    Float32x4,
}

/// Whether a buffer advances once per vertex or once per instance.
#[derive(PartialEq, Eq, Structural, Clone, Copy, Debug)]
pub enum StepMode {
    Vertex,
    Instance,
}

/// One attribute of a buffer layout.
#[derive(PartialEq, Eq, Structural, Clone, Copy, Debug)]
pub struct VertexAttribute {
    pub format: AttributeFormat,
    /// Byte offset of the attribute inside one element.
    pub offset: u64,
    /// The shader input location that receives it.
    pub shader_location: u32,
}

/// How the pipeline reads one vertex buffer.
pub struct BufferLayout {
    /// Bytes from one element to the next.
    pub array_stride: u64,
    pub step_mode: StepMode,
    pub attributes: Vec<VertexAttribute>,
}

/// Size in bytes of an attribute of the given format.
pub open spec fn format_size(f: AttributeFormat) -> nat {
    match f {
        AttributeFormat::Float32x2 => 8,
        AttributeFormat::Float32x3 => 12,
        AttributeFormat::Float32x4 => 16,
    }
}

/// Size in bytes of an attribute of the given format.
pub fn attribute_size(f: AttributeFormat) -> (r: u64)
    ensures
        r == format_size(f),
{
    match f {
        AttributeFormat::Float32x2 => 8,
        AttributeFormat::Float32x3 => 12,
        AttributeFormat::Float32x4 => 16,
    }
}

/// Total size in bytes of a sequence of attributes laid out back to back.
pub open spec fn total_size(fs: Seq<AttributeFormat>) -> nat
    decreases fs.len(),
{
    if fs.len() == 0 {
        0
    } else {
        total_size(fs.drop_last()) + format_size(fs.last())
    }
}

/// The layout whose attributes have the given formats, in order, starting at
/// shader location `first`: each offset is the sum of the sizes before it and
/// the stride is the sum of them all.
pub open spec fn layout_of(fs: Seq<AttributeFormat>, first: u32, step: StepMode) -> (int, StepMode, Seq<VertexAttribute>) {
    (
        total_size(fs) as int,
        step,
        Seq::new(
            fs.len(),
            |i: int|
                VertexAttribute {
                    format: fs[i],
                    offset: total_size(fs.take(i)) as u64,
                    shader_location: (first + i) as u32,
                },
        ),
    )
}

/// The model of a layout: stride, step mode and attributes.
pub open spec fn layout_view(l: &BufferLayout) -> (int, StepMode, Seq<VertexAttribute>) {
    (l.array_stride as int, l.step_mode, l.attributes@)
}

proof fn lemma_total_size_bound(fs: Seq<AttributeFormat>)
    ensures
        total_size(fs) <= 16 * fs.len(),
    decreases fs.len(),
{
    if fs.len() > 0 {
        lemma_total_size_bound(fs.drop_last());
    }
}

/// Lays out attributes of the given formats back to back in one buffer,
/// numbering their shader locations from `first`.
pub fn buffer_layout(formats: &Vec<AttributeFormat>, first: u32, step: StepMode) -> (r: BufferLayout)
    requires
        first as int + formats@.len() <= u32::MAX as int + 1,
    ensures
        layout_view(&r) == layout_of(formats@, first, step),
{
    let mut attributes: Vec<VertexAttribute> = Vec::new();
    let mut offset: u64 = 0;
    let mut i: usize = 0;
    proof {
        lemma_total_size_bound(formats@);
    }
    while i < formats.len()
        invariant
            i <= formats@.len(),
            first as int + formats@.len() <= u32::MAX as int + 1,
            total_size(formats@) <= 16 * formats@.len(),
            offset == total_size(formats@.take(i as int)),
            attributes@.len() == i,
            forall|j: int|
                0 <= j < i ==> #[trigger] attributes@[j] == (VertexAttribute {
                    format: formats@[j],
                    offset: total_size(formats@.take(j)) as u64,
                    shader_location: (first + j) as u32,
                }),
        decreases formats@.len() - i,
    {
        let f = formats[i];
        proof {
            assert(formats@.take(i as int + 1).drop_last() =~= formats@.take(i as int));
            lemma_total_size_bound(formats@.take(i as int + 1));
            lemma_take_size_le(formats@, i as int + 1);
        }
        attributes.push(VertexAttribute { format: f, offset, shader_location: first + i as u32 });
        offset = offset + attribute_size(f);
        i = i + 1;
    }
    proof {
        assert(formats@.take(formats@.len() as int) =~= formats@);
        assert(attributes@ =~= layout_of(formats@, first, step).2);
    }
    BufferLayout { array_stride: offset, step_mode: step, attributes }
}

proof fn lemma_take_size_le(fs: Seq<AttributeFormat>, k: int)
    requires
        0 <= k <= fs.len(),
    ensures
        total_size(fs.take(k)) <= total_size(fs),
    decreases fs.len() - k,
{
    if k < fs.len() {
        lemma_take_size_le(fs, k + 1);
        assert(fs.take(k + 1).drop_last() =~= fs.take(k));
        assert(total_size(fs.take(k + 1)) == total_size(fs.take(k)) + format_size(fs[k]));
    } else {
        assert(fs.take(k) =~= fs);
    }
}

/// Layout of a vertex with a 2D position and an RGB colour: locations 0 and 1,
/// offsets 0 and 8, stride 20.
pub fn colored_vertex_layout_2d() -> (r: BufferLayout)
    ensures
        layout_view(&r) == layout_of(seq![AttributeFormat::Float32x2, AttributeFormat::Float32x3], 0, StepMode::Vertex),
        r.array_stride == 20,
        r.attributes@.len() == 2,
        r.attributes@[0].offset == 0,
        r.attributes@[1].offset == 8,
{
    let formats = vec![AttributeFormat::Float32x2, AttributeFormat::Float32x3];
    let r = buffer_layout(&formats, 0, StepMode::Vertex);
    proof {
        lemma_sizes_of_pair(AttributeFormat::Float32x2, AttributeFormat::Float32x3);
    }
    r
}

/// Layout of a vertex with a 3D position and an RGB colour: locations 0 and 1,
/// offsets 0 and 12, stride 24.
pub fn colored_vertex_layout() -> (r: BufferLayout)
    ensures
        layout_view(&r) == layout_of(seq![AttributeFormat::Float32x3, AttributeFormat::Float32x3], 0, StepMode::Vertex),
        r.array_stride == 24,
        r.attributes@.len() == 2,
        r.attributes@[0].offset == 0,
        r.attributes@[1].offset == 12,
{
    let formats = vec![AttributeFormat::Float32x3, AttributeFormat::Float32x3];
    let r = buffer_layout(&formats, 0, StepMode::Vertex);
    proof {
        lemma_sizes_of_pair(AttributeFormat::Float32x3, AttributeFormat::Float32x3);
    }
    r
}

/// Layout of a vertex with a 3D position and texture coordinates: locations
/// 0 and 1, offsets 0 and 12, stride 20.
pub fn textured_vertex_layout() -> (r: BufferLayout)
    ensures
        layout_view(&r) == layout_of(seq![AttributeFormat::Float32x3, AttributeFormat::Float32x2], 0, StepMode::Vertex),
        r.array_stride == 20,
        r.attributes@.len() == 2,
        r.attributes@[0].offset == 0,
        r.attributes@[1].offset == 12,
{
    let formats = vec![AttributeFormat::Float32x3, AttributeFormat::Float32x2];
    let r = buffer_layout(&formats, 0, StepMode::Vertex);
    proof {
        lemma_sizes_of_pair(AttributeFormat::Float32x3, AttributeFormat::Float32x2);
    }
    r
}

proof fn lemma_sizes_of_pair(a: AttributeFormat, b: AttributeFormat)
    ensures
        total_size(seq![a, b].take(0)) == 0,
        total_size(seq![a, b].take(1)) == format_size(a),
        total_size(seq![a, b]) == format_size(a) + format_size(b),
{
    let s = seq![a, b];
    assert(s.take(0) =~= Seq::<AttributeFormat>::empty());
    assert(s.take(1) =~= seq![a]);
    assert(seq![a].drop_last() =~= Seq::<AttributeFormat>::empty());
    assert(total_size(Seq::<AttributeFormat>::empty()) == 0);
    assert(seq![a].last() == a);
    assert(s.drop_last() =~= seq![a]);
    assert(s.last() == b);
    assert(total_size(seq![a]) == format_size(a));
}

/// First shader location of the per-instance model matrix.
pub const INSTANCE_FIRST_LOCATION: u32 = 5;

/// Layout of the per-instance stream: a 4x4 model matrix as four column
/// vectors at locations 5 to 8, offsets 0, 16, 32 and 48, stride 64, advancing
/// once per instance.
pub fn instance_layout() -> (r: BufferLayout)
    ensures
        layout_view(&r) == layout_of(
            seq![AttributeFormat::Float32x4, AttributeFormat::Float32x4, AttributeFormat::Float32x4, AttributeFormat::Float32x4],
            INSTANCE_FIRST_LOCATION,
            StepMode::Instance,
        ),
        r.array_stride == 64,
        r.step_mode == StepMode::Instance,
        r.attributes@.len() == 4,
        forall|i: int| 0 <= i < 4 ==> #[trigger] r.attributes@[i].offset == 16 * i
            && r.attributes@[i].shader_location == INSTANCE_FIRST_LOCATION + i
            && r.attributes@[i].format == AttributeFormat::Float32x4,
{
    let formats = vec![
        AttributeFormat::Float32x4,
        AttributeFormat::Float32x4,
        AttributeFormat::Float32x4,
        AttributeFormat::Float32x4,
    ];
    let r = buffer_layout(&formats, INSTANCE_FIRST_LOCATION, StepMode::Instance);
    proof {
        let s = formats@;
        assert forall|k: int| 0 <= k <= 4 implies total_size(#[trigger] s.take(k)) == 16 * k by {
            lemma_uniform_size(s, k);
        }
        assert(s.take(4) =~= s);
    }
    r
}

proof fn lemma_uniform_size(s: Seq<AttributeFormat>, k: int)
    requires
        0 <= k <= s.len(),
        forall|i: int| 0 <= i < s.len() ==> s[i] == AttributeFormat::Float32x4,
    ensures
        total_size(s.take(k)) == 16 * k,
    decreases k,
{
    if k > 0 {
        lemma_uniform_size(s, k - 1);
        assert(s.take(k).drop_last() =~= s.take(k - 1));
    } else {
        assert(s.take(0) =~= Seq::<AttributeFormat>::empty());
    }
}

} // verus!
