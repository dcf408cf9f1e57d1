//! Host-to-device vertex upload: the staging protocol that moves vertex
//! records byte-for-byte through a transfer buffer and one copy pass into
//! the long-lived device vertex buffer.

use vstd::prelude::*;

verus! {

/// The device-resident vertex buffer, modelled by the bytes it holds after
/// the upload copy pass has been submitted.
#[derive(Clone, Debug, PartialEq, Eq)]
pub struct VertexBuffer {
    pub size: u32,
    pub data: Vec<u8>,
}

/// One step of the upload protocol, in the order the device must see it.
#[derive(Clone, Copy, Debug, PartialEq, Eq, Structural)]
pub enum UploadStep {
    /// Create the device vertex buffer of the full upload size.
    CreateVertexBuffer { size: u32 },
    /// Create the staging transfer buffer of the same size.
    CreateTransferBuffer { size: u32 },
    /// Map the transfer buffer, copy the records in byte-for-byte, unmap.
    WriteTransfer { size: u32 },
    /// Acquire the one-shot command buffer for the copy pass.
    AcquireCommandBuffer,
    /// Open the copy pass.
    BeginCopyPass,
    /// One upload command covering the full size.
    UploadRegion { src_offset: u32, dst_offset: u32, size: u32 },
    /// Close the copy pass.
    EndCopyPass,
    /// Submit the command buffer: only now is the copy ordered before any
    /// later render pass that binds the vertex buffer.
    Submit,
    /// Release the staging buffer; it is never retained across frames.
    ReleaseTransferBuffer,
}

/// The strictly ordered steps of one upload of `size` bytes.
pub open spec fn upload_steps_spec(size: u32) -> Seq<UploadStep> {
    seq![
        UploadStep::CreateVertexBuffer { size },
        UploadStep::CreateTransferBuffer { size },
        UploadStep::WriteTransfer { size },
        UploadStep::AcquireCommandBuffer,
        UploadStep::BeginCopyPass,
        UploadStep::UploadRegion { src_offset: 0, dst_offset: 0, size },
        UploadStep::EndCopyPass,
        UploadStep::Submit,
        UploadStep::ReleaseTransferBuffer,
    ]
}

/// The upload protocol's ordering guarantee: one upload command covers the
/// full size from offset zero, the command buffer is submitted after the
/// copy pass closes, and the transfer buffer is released only after
/// submission.
pub proof fn lemma_upload_order(size: u32)
    ensures
        upload_steps_spec(size).len() == 9,
        upload_steps_spec(size)[5] == (UploadStep::UploadRegion {
            src_offset: 0,
            dst_offset: 0,
            size,
        }),
        upload_steps_spec(size)[6] == UploadStep::EndCopyPass,
        upload_steps_spec(size)[7] == UploadStep::Submit,
        upload_steps_spec(size)[8] == UploadStep::ReleaseTransferBuffer,
{
}

/// The host vertex records laid out one after another, byte-for-byte.
pub open spec fn flat(rs: Seq<Vec<u8>>) -> Seq<u8>
    decreases rs.len(),
{
    if rs.len() == 0 {
        Seq::empty()
    } else {
        flat(rs.drop_last()) + rs.last()@
    }
}

/// Records of one common stride flatten to `count * stride` bytes.
pub proof fn lemma_flat_len_uniform(rs: Seq<Vec<u8>>, stride: u32)
    requires
        forall|i: int| 0 <= i < rs.len() ==> rs[i]@.len() == stride,
    ensures
        flat(rs).len() == rs.len() * stride,
    decreases rs.len(),
{
    if rs.len() == 0 {
    } else {
        lemma_flat_len_uniform(rs.drop_last(), stride);
        assert((rs.len() - 1) * stride + stride == rs.len() * stride) by (nonlinear_arith);
    }
}

/// Byte-for-byte round trip: byte `j` of record `i` sits at flat position
/// `i * stride + j`, so the buffer content is exactly the record sequence.
pub proof fn lemma_flat_index(rs: Seq<Vec<u8>>, stride: u32, i: int, j: int)
    requires
        forall|k: int| 0 <= k < rs.len() ==> rs[k]@.len() == stride,
        0 <= i < rs.len(),
        0 <= j < stride,
    ensures
        0 <= i * stride + j < flat(rs).len(),
        flat(rs)[i * stride + j] == rs[i]@[j],
    decreases rs.len(),
{
    lemma_flat_len_uniform(rs, stride);
    assert(0 <= i * stride + j && i * stride + j < rs.len() * stride) by (nonlinear_arith)
        requires
            0 <= i < rs.len(),
            0 <= j < stride,
    ;
    if i == rs.len() - 1 {
        lemma_flat_len_uniform(rs.drop_last(), stride);
        assert(i * stride + j - flat(rs.drop_last()).len() == j) by (nonlinear_arith)
            requires
                flat(rs.drop_last()).len() == (rs.len() - 1) * stride,
                i == rs.len() - 1,
        ;
    } else {
        lemma_flat_index(rs.drop_last(), stride, i, j);
        lemma_flat_len_uniform(rs.drop_last(), stride);
        assert(i * stride + j < (rs.len() - 1) * stride) by (nonlinear_arith)
            requires
                0 <= j < stride,
                0 <= i < rs.len() - 1,
        ;
    }
}

/// Appends the bytes of `src` to `dst`.
fn append_bytes(dst: &mut Vec<u8>, src: &Vec<u8>)
    ensures
        final(dst)@ == old(dst)@ + src@,
{
    let mut j: usize = 0;
    proof {
        assert(dst@ =~= dst@ + src@.subrange(0, 0));
    }
    while j < src.len()
        invariant
            j <= src@.len(),
            dst@ == old(dst)@ + src@.subrange(0, j as int),
        decreases src@.len() - j,
    {
        dst.push(src[j]);
        proof {
            assert(dst@ =~= old(dst)@ + src@.subrange(0, j + 1 as int));
        }
        j = j + 1;
    }
    proof {
        assert(old(dst)@ + src@.subrange(0, src@.len() as int) =~= old(dst)@ + src@);
    }
}

/// Uploads the host vertex records to a device vertex buffer through a
/// transfer buffer and one copy pass. Returns the vertex buffer, holding
/// the records byte-for-byte, and the strictly ordered protocol steps the
/// device must execute: the transfer buffer is written before the copy
/// pass, submitted before it is released, and never retained.
pub fn upload(records: &Vec<Vec<u8>>, stride: u32) -> (r: (VertexBuffer, Vec<UploadStep>))
    requires
        0 < stride,
        forall|i: int| 0 <= i < records@.len() ==> records@[i]@.len() == stride,
        records@.len() * stride <= u32::MAX,
    ensures
        r.0.size == records@.len() * stride,
        r.0.data@ == flat(records@),
        r.0.data@.len() == r.0.size,
        r.1@ == upload_steps_spec(r.0.size),
{
    let count = records.len();
    let size64: u64 = (count as u64) * (stride as u64);
    let size: u32 = size64 as u32;
    let mut data: Vec<u8> = Vec::new();
    let mut i: usize = 0;
    while i < records.len()
        invariant
            i <= records@.len(),
            forall|k: int| 0 <= k < records@.len() ==> records@[k]@.len() == stride,
            data@ == flat(records@.subrange(0, i as int)),
        decreases records@.len() - i,
    {
        append_bytes(&mut data, &records[i]);
        proof {
            assert(records@.subrange(0, i + 1 as int).drop_last() =~= records@.subrange(
                0,
                i as int,
            ));
            assert(records@.subrange(0, i + 1 as int).last() == records@[i as int]);
        }
        i = i + 1;
    }
    proof {
        assert(records@.subrange(0, records@.len() as int) =~= records@);
        lemma_flat_len_uniform(records@, stride);
    }
    let mut steps: Vec<UploadStep> = Vec::new();
    steps.push(UploadStep::CreateVertexBuffer { size });
    steps.push(UploadStep::CreateTransferBuffer { size });
    steps.push(UploadStep::WriteTransfer { size });
    steps.push(UploadStep::AcquireCommandBuffer);
    steps.push(UploadStep::BeginCopyPass);
    steps.push(UploadStep::UploadRegion { src_offset: 0, dst_offset: 0, size });
    steps.push(UploadStep::EndCopyPass);
    steps.push(UploadStep::Submit);
    steps.push(UploadStep::ReleaseTransferBuffer);
    proof {
        assert(steps@ =~= upload_steps_spec(size));
    }
    (VertexBuffer { size, data }, steps)
}

/// Reads one record back out of the uploaded buffer: the read-back path of
/// the round trip.
pub fn read_record(vb: &VertexBuffer, stride: u32, i: u32) -> (r: Vec<u8>)
    requires
        0 < stride,
        (i + 1) * stride <= vb.data@.len(),
    ensures
        r@ == vb.data@.subrange(i as int * stride as int, (i + 1) as int * stride as int),
{
    let n = vb.data.len();
    proof {
        assert(0 <= i * stride && i * stride + stride == (i + 1) * stride) by (nonlinear_arith)
            requires
                0 <= i,
                0 < stride,
        ;
        assert(i * stride + stride <= n);
    }
    let start: usize = (i as usize) * (stride as usize);
    let mut out: Vec<u8> = Vec::new();
    let mut j: usize = 0;
    while j < stride as usize
        invariant
            j <= stride,
            start == i * stride,
            start + stride <= vb.data@.len(),
            vb.data@.len() <= usize::MAX,
            out@ == vb.data@.subrange(start as int, start as int + j as int),
        decreases stride - j,
    {
        out.push(vb.data[start + j]);
        proof {
            assert(out@ =~= vb.data@.subrange(start as int, start as int + (j + 1) as int));
        }
        j = j + 1;
    }
    out
}

} // verus!
