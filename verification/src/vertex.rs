//! Vertex record layout descriptions and the planned state of one vertex
//! buffer: a GPU buffer object, its vertex-array binding, and the last
//! uploaded vertex data.

use vstd::prelude::*;

verus! {

use crate::glcall::GlCall;
use crate::glcall::GlId;

/// The number of bytes one field of a vertex record occupies: its component
/// count times the byte size of one component.
pub open spec fn field_bytes(field: (u8, u8)) -> int {
    field.0 * field.1
}

/// The total byte size of a vertex record laid out as `fields`, each entry a
/// pair of component count and component byte size.
pub open spec fn total_stride(fields: Seq<(u8, u8)>) -> int
    decreases fields.len(),
{
    if fields.len() == 0 {
        0
    } else {
        total_stride(fields.drop_last()) + field_bytes(fields.last())
    }
}

/// The byte offset of field `i`: the summed sizes of the fields before it.
pub open spec fn field_offset(fields: Seq<(u8, u8)>, i: int) -> int {
    total_stride(fields.take(i))
}

/// The attribute-binding calls that program a vertex layout: for each field,
/// in order, one pointer description at its offset and one attribute enable.
pub open spec fn emit_calls(fields: Seq<(u8, u8)>, stride: u32) -> Seq<GlCall>
    decreases fields.len(),
{
    if fields.len() == 0 {
        Seq::empty()
    } else {
        emit_calls(fields.drop_last(), stride) + seq![
            GlCall::VertexAttribPointer {
                index: (fields.len() - 1) as u32,
                size: fields.last().0,
                stride,
                offset: field_offset(fields, fields.len() - 1) as u32,
            },
            GlCall::EnableVertexAttribArray { index: (fields.len() - 1) as u32 },
        ]
    }
}

/// No field adds a negative size, so the stride of a prefix never exceeds
/// the stride of the whole layout.
proof fn lemma_stride_prefix(fields: Seq<(u8, u8)>, i: int)
    requires
        0 <= i <= fields.len(),
    ensures
        total_stride(fields.take(i)) <= total_stride(fields),
    decreases fields.len(),
{
    if i < fields.len() {
        assert(fields.drop_last().take(i) =~= fields.take(i));
        lemma_stride_prefix(fields.drop_last(), i);
    } else {
        assert(fields.take(i) =~= fields);
    }
}

/// Every field of a well-formed layout occupies at least four bytes, so a
/// layout of `n` fields has a stride of at least `4 * n`.
proof fn lemma_stride_counts_fields(fields: Seq<(u8, u8)>)
    requires
        forall|i: int| 0 <= i < fields.len() ==> field_wf(#[trigger] fields[i]),
    ensures
        total_stride(fields) >= 4 * fields.len(),
        total_stride(fields) >= 0,
    decreases fields.len(),
{
    if fields.len() > 0 {
        lemma_stride_counts_fields(fields.drop_last());
    }
}

/// A well-formed field: one to four components, each four bytes wide.
pub open spec fn field_wf(field: (u8, u8)) -> bool {
    1 <= field.0 <= 4 && field.1 == 4
}

/// Describes the byte layout of one vertex record: an ordered list of
/// float-vector fields. The position of a field determines both its attribute
/// index and its byte offset; the stride is the summed size of all fields.
#[derive(Debug)]
pub struct VertexFormat {
    fields: Vec<(u8, u8)>,
    stride: u32,
}

impl VertexFormat {
    /// The ordered fields, each a pair of component count and component byte
    /// size.
    pub closed spec fn spec_fields(self) -> Seq<(u8, u8)> {
        self.fields@
    }

    /// The byte size of one vertex record.
    pub closed spec fn spec_stride(self) -> u32 {
        self.stride
    }

    /// Well-formed: the stride agrees with the fields, and every field is a
    /// float vector of one to four components.
    pub open spec fn wf(self) -> bool {
        &&& self.spec_stride() == total_stride(self.spec_fields())
        &&& forall|i: int|
            0 <= i < self.spec_fields().len() ==> field_wf(#[trigger] self.spec_fields()[i])
    }

    /// Two formats describe the same layout.
    pub open spec fn same_layout(self, other: VertexFormat) -> bool {
        self.spec_fields() == other.spec_fields() && self.spec_stride() == other.spec_stride()
    }

    /// An empty layout: no fields, stride zero.
    pub fn new() -> (r: VertexFormat)
        ensures
            r.wf(),
            r.spec_fields() == Seq::<(u8, u8)>::empty(),
            r.spec_stride() == 0,
    {
        VertexFormat { fields: Vec::new(), stride: 0 }
    }

    /// Ends a builder chain, returning the finished format unchanged.
    pub fn bound(self) -> (r: VertexFormat)
        ensures
            r == self,
    {
        self
    }

    /// Appends one field of `count` float components.
    fn field(&mut self, count: u8)
        requires
            old(self).wf(),
            1 <= count <= 4,
            old(self).spec_stride() + 4 * count <= u32::MAX,
        ensures
            final(self).wf(),
            final(self).spec_fields() == old(self).spec_fields().push((count, 4u8)),
            final(self).spec_stride() == old(self).spec_stride() + 4 * count,
    {
        self.stride = self.stride + 4 * (count as u32);
        self.fields.push((count, 4));
        proof {
            assert(self.fields@.drop_last() =~= old(self).fields@);
        }
    }

    /// Appends a four-component float-vector field.
    pub fn field_vec4(self) -> (r: VertexFormat)
        requires
            self.wf(),
            self.spec_stride() + 16 <= u32::MAX,
        ensures
            r.wf(),
            r.spec_fields() == self.spec_fields().push((4u8, 4u8)),
            r.spec_stride() == self.spec_stride() + 16,
    {
        let mut r = self;
        r.field(4);
        r
    }

    /// Appends a three-component float-vector field.
    pub fn field_vec3(self) -> (r: VertexFormat)
        requires
            self.wf(),
            self.spec_stride() + 12 <= u32::MAX,
        ensures
            r.wf(),
            r.spec_fields() == self.spec_fields().push((3u8, 4u8)),
            r.spec_stride() == self.spec_stride() + 12,
    {
        let mut r = self;
        r.field(3);
        r
    }

    /// Appends a two-component float-vector field.
    pub fn field_vec2(self) -> (r: VertexFormat)
        requires
            self.wf(),
            self.spec_stride() + 8 <= u32::MAX,
        ensures
            r.wf(),
            r.spec_fields() == self.spec_fields().push((2u8, 4u8)),
            r.spec_stride() == self.spec_stride() + 8,
    {
        let mut r = self;
        r.field(2);
        r
    }

    /// Appends a single-float field.
    pub fn field_float(self) -> (r: VertexFormat)
        requires
            self.wf(),
            self.spec_stride() + 4 <= u32::MAX,
        ensures
            r.wf(),
            r.spec_fields() == self.spec_fields().push((1u8, 4u8)),
            r.spec_stride() == self.spec_stride() + 4,
    {
        let mut r = self;
        r.field(1);
        r
    }

    /// The number of fields in the layout.
    pub fn len(&self) -> (r: usize)
        ensures
            r == self.spec_fields().len(),
    {
        self.fields.len()
    }

    /// The byte size of one vertex record.
    pub fn stride(&self) -> (r: u32)
        ensures
            r == self.spec_stride(),
    {
        self.stride
    }

    /// Plans the attribute bindings of this layout for the vertex array bound
    /// at the time the plan is performed: field order gives the attribute
    /// index, prefix sums of the field sizes give the byte offsets.
    pub fn emit(&self) -> (r: Vec<GlCall>)
        requires
            self.wf(),
        ensures
            r@ == emit_calls(self.spec_fields(), self.spec_stride()),
    {
        let mut out: Vec<GlCall> = Vec::new();
        let mut offset: u32 = 0;
        let n = self.fields.len();
        proof {
            assert(self.fields@.take(0) =~= Seq::<(u8, u8)>::empty());
        }
        for i in 0..n
            invariant
                n == self.spec_fields().len(),
                self.wf(),
                offset == field_offset(self.spec_fields(), i as int),
                out@ == emit_calls(self.spec_fields().take(i as int), self.spec_stride()),
        {
            let (count, size) = self.fields[i];
            out.push(
                GlCall::VertexAttribPointer {
                    index: i as u32,
                    size: count,
                    stride: self.stride,
                    offset,
                },
            );
            out.push(GlCall::EnableVertexAttribArray { index: i as u32 });
            proof {
                let fields = self.spec_fields();
                assert(fields.take(i + 1).drop_last() =~= fields.take(i as int));
                assert(fields.take(i + 1).last() == fields[i as int]);
                lemma_stride_prefix(fields, i + 1);
                lemma_stride_counts_fields(fields);
                assert(fields.take(i + 1).take(i as int) =~= fields.take(i as int));
            }
            offset = offset + (count as u32) * (size as u32);
        }
        proof {
            assert(self.spec_fields().take(n as int) =~= self.spec_fields());
        }
        out
    }
}

impl Clone for VertexFormat {
    /// The clone describes the same layout.
    fn clone(&self) -> (r: VertexFormat)
        ensures
            r.same_layout(*self),
    {
        let mut fields: Vec<(u8, u8)> = Vec::new();
        let n = self.fields.len();
        for i in 0..n
            invariant
                n == self.fields@.len(),
                fields@ == self.fields@.take(i as int),
        {
            fields.push(self.fields[i]);
            proof {
                assert(self.fields@.take(i + 1) =~= self.fields@.take(i as int).push(
                    self.fields@[i as int],
                ));
            }
        }
        proof {
            assert(self.fields@.take(n as int) =~= self.fields@);
        }
        VertexFormat { fields, stride: self.stride }
    }
}

/// The calls that set up a fresh vertex buffer: bind its array object, bind
/// its buffer object as the array's data source, program the layout's
/// attribute bindings, and unbind the array.
pub open spec fn buffer_setup_calls(
    object_buffer: GlId,
    object_array: GlId,
    fields: Seq<(u8, u8)>,
    stride: u32,
) -> Seq<GlCall> {
    seq![
        GlCall::BindVertexArray { array: object_array },
        GlCall::BindBuffer { buffer: object_buffer },
    ] + emit_calls(fields, stride) + seq![GlCall::UnbindVertexArray]
}

/// The calls that replace a vertex buffer's contents: bind the array and the
/// buffer, upload the data held by the planning buffer, and unbind the array.
pub open spec fn rebuffer_calls(object_buffer: GlId, object_array: GlId, len: int) -> Seq<GlCall> {
    seq![
        GlCall::BindVertexArray { array: object_array },
        GlCall::BindBuffer { buffer: object_buffer },
        GlCall::BufferVertexData { len: len as usize },
        GlCall::UnbindVertexArray,
    ]
}

/// What `VertexBuffer::rebuffer` leaves behind and plans: the buffer now
/// holds exactly `data`, whatever it held before, and the upload is planned
/// in full.
pub closed spec fn rebuffer_outcome<T>(buffer: VertexBuffer<T>, data: Vec<T>) -> (
    VertexBuffer<T>,
    Seq<GlCall>,
) {
    (
        VertexBuffer { prepared: true, data: Some(data), ..buffer },
        rebuffer_calls(buffer.spec_buffer(), buffer.spec_array(), data@.len() as int),
    )
}

/// An upload fully replaces what a buffer held: after two uploads, in any
/// state to begin with, the vertex count is exactly the second upload's
/// length, with no residue from the first.
pub proof fn law_rebuffer_replaces<T>(buffer: VertexBuffer<T>, first: Vec<T>, second: Vec<T>)
    ensures
        rebuffer_outcome(buffer, first).0.spec_verts_len() == first@.len(),
        rebuffer_outcome(rebuffer_outcome(buffer, first).0, second).0.spec_verts_len()
            == second@.len(),
{
}

/// One vertex buffer: a GPU buffer object, the vertex-array object binding a
/// layout to it, and the vertex data last uploaded, absent until the first
/// upload. Uploading always fully replaces the previous contents.
#[derive(Debug)]
pub struct VertexBuffer<T> {
    prepared: bool,
    object_buffer: GlId,
    object_array: GlId,
    data: Option<Vec<T>>,
    format: VertexFormat,
}

impl<T> VertexBuffer<T> {
    /// Whether any data was uploaded yet.
    pub closed spec fn spec_prepared(self) -> bool {
        self.prepared
    }

    /// The buffer object's name.
    pub closed spec fn spec_buffer(self) -> GlId {
        self.object_buffer
    }

    /// The vertex array object's name.
    pub closed spec fn spec_array(self) -> GlId {
        self.object_array
    }

    /// The vertex data last uploaded, if any.
    pub closed spec fn spec_data(self) -> Option<Seq<T>> {
        match self.data {
            Some(v) => Some(v@),
            None => None,
        }
    }

    /// The layout the buffer was created with.
    pub closed spec fn spec_format(self) -> VertexFormat {
        self.format
    }

    /// The number of vertex records the buffer holds: the length of the last
    /// uploaded data, and zero before any upload.
    pub open spec fn spec_verts_len(self) -> int {
        match self.spec_data() {
            Some(d) => d.len() as int,
            None => 0,
        }
    }

    /// A fresh buffer around the given buffer and array objects, with no data
    /// yet, and the plan that binds the array, binds the buffer as its data
    /// source, and programs `format`'s attribute bindings while both are
    /// bound.
    pub fn new(format: &VertexFormat, object_buffer: GlId, object_array: GlId) -> (r: (
        VertexBuffer<T>,
        Vec<GlCall>,
    ))
        requires
            format.wf(),
        ensures
            !r.0.spec_prepared(),
            r.0.spec_buffer() == object_buffer,
            r.0.spec_array() == object_array,
            r.0.spec_data() is None,
            r.0.spec_format().same_layout(*format),
            r.0.spec_format().wf(),
            r.1@ == buffer_setup_calls(
                object_buffer,
                object_array,
                format.spec_fields(),
                format.spec_stride(),
            ),
    {
        let mut calls: Vec<GlCall> = Vec::new();
        calls.push(GlCall::BindVertexArray { array: object_array });
        calls.push(GlCall::BindBuffer { buffer: object_buffer });
        let mut attribs = format.emit();
        calls.append(&mut attribs);
        calls.push(GlCall::UnbindVertexArray);
        proof {
            assert(calls@ =~= buffer_setup_calls(
                object_buffer,
                object_array,
                format.spec_fields(),
                format.spec_stride(),
            ));
        }
        (
            VertexBuffer {
                prepared: false,
                object_buffer,
                object_array,
                data: None,
                format: format.clone(),
            },
            calls,
        )
    }

    /// The buffer object's name.
    pub fn handle_buffer(&self) -> (r: GlId)
        ensures
            r == self.spec_buffer(),
    {
        self.object_buffer
    }

    /// The vertex array object's name.
    pub fn handle_array(&self) -> (r: GlId)
        ensures
            r == self.spec_array(),
    {
        self.object_array
    }

    /// The number of vertex records the buffer holds.
    pub fn get_verts_len(&self) -> (r: usize)
        ensures
            r == self.spec_verts_len(),
    {
        if let Some(ref data) = self.data {
            data.len()
        } else {
            0
        }
    }

    /// Replaces the buffer's contents with `data`, keeping a copy for length
    /// queries, and plans the upload: bind the array and buffer, upload the
    /// new data in full, unbind.
    pub fn rebuffer(&mut self, data: Vec<T>) -> (calls: Vec<GlCall>)
        ensures
            *final(self) == rebuffer_outcome(*old(self), data).0,
            calls@ == rebuffer_outcome(*old(self), data).1,
            final(self).spec_prepared(),
            final(self).spec_data() == Some(data@),
            final(self).spec_buffer() == old(self).spec_buffer(),
            final(self).spec_array() == old(self).spec_array(),
            final(self).spec_format() == old(self).spec_format(),
            calls@ == rebuffer_calls(
                old(self).spec_buffer(),
                old(self).spec_array(),
                data@.len() as int,
            ),
    {
        let mut calls: Vec<GlCall> = Vec::new();
        calls.push(GlCall::BindVertexArray { array: self.object_array });
        calls.push(GlCall::BindBuffer { buffer: self.object_buffer });
        calls.push(GlCall::BufferVertexData { len: data.len() });
        calls.push(GlCall::UnbindVertexArray);
        proof {
            assert(calls@ =~= rebuffer_calls(
                self.object_buffer,
                self.object_array,
                data@.len() as int,
            ));
        }
        self.prepared = true;
        self.data = Some(data);
        calls
    }

    /// A fresh buffer with `data` already uploaded: the setup plan followed
    /// by one full upload.
    pub fn new_from(data: Vec<T>, format: &VertexFormat, object_buffer: GlId, object_array: GlId)
        -> (r: (VertexBuffer<T>, Vec<GlCall>))
        requires
            format.wf(),
        ensures
            r.0.spec_prepared(),
            r.0.spec_buffer() == object_buffer,
            r.0.spec_array() == object_array,
            r.0.spec_data() == Some(data@),
            r.0.spec_format().same_layout(*format),
            r.1@ == buffer_setup_calls(
                object_buffer,
                object_array,
                format.spec_fields(),
                format.spec_stride(),
            ) + rebuffer_calls(object_buffer, object_array, data@.len() as int),
    {
        let (mut buffer, mut calls) = Self::new(format, object_buffer, object_array);
        let mut upload = buffer.rebuffer(data);
        calls.append(&mut upload);
        (buffer, calls)
    }
}

} // verus!
