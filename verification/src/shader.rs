//! Shader identity resolution: derives a shader's stage from the name of
//! its source artifact and the location of its compiled binary from the
//! same name, and pairs the loaded binary with its declared binding counts.

use vstd::prelude::*;

verus! {

/// Path separator byte `/`.
pub const SLASH_BYTE: u8 = 47;

/// Extension separator byte `.`.
pub const DOT_BYTE: u8 = 46;

/// The pipeline stage a shader runs in.
#[derive(Clone, Copy, Debug, PartialEq, Eq, Structural)]
pub enum ShaderStage {
    Vertex,
    Fragment,
}

/// Why a shader could not be resolved or created.
#[derive(Clone, Debug, PartialEq, Eq)]
pub enum ShaderError {
    /// The source name carries no extension naming a known stage.
    UnknownStage,
    /// No compiled binary exists; carries the derived path that was expected.
    MissingBinary { path: Vec<u8> },
}

/// A resolved request: the stage, the derived binary location, and the
/// caller-declared resource-binding counts the consuming pipeline expects.
#[derive(Clone, Debug, PartialEq, Eq)]
pub struct ShaderRequest {
    pub stage: ShaderStage,
    pub binary_path: Vec<u8>,
    pub sampler_count: u32,
    pub uniform_buffer_count: u32,
    pub storage_buffer_count: u32,
    pub storage_texture_count: u32,
}

/// A shader ready for device-side creation: the compiled binary blob plus
/// the stage and binding counts it was requested with.
#[derive(Clone, Debug, PartialEq, Eq)]
pub struct ShaderObject {
    pub stage: ShaderStage,
    pub code: Vec<u8>,
    pub sampler_count: u32,
    pub uniform_buffer_count: u32,
    pub storage_buffer_count: u32,
    pub storage_texture_count: u32,
}

/// The index of the last occurrence of `b` in `p`, if any.
pub open spec fn last_byte_index(p: Seq<u8>, b: u8) -> Option<int>
    decreases p.len(),
{
    if p.len() == 0 {
        None
    } else if p.last() == b {
        Some(p.len() - 1)
    } else {
        last_byte_index(p.drop_last(), b)
    }
}

pub proof fn lemma_last_byte_index_found(p: Seq<u8>, b: u8, i: int)
    requires
        0 <= i < p.len(),
        p[i] == b,
        forall|j: int| i < j < p.len() ==> p[j] != b,
    ensures
        last_byte_index(p, b) == Some(i),
    decreases p.len(),
{
    if i < p.len() - 1 {
        lemma_last_byte_index_found(p.drop_last(), b, i);
    }
}

pub proof fn lemma_last_byte_index_absent(p: Seq<u8>, b: u8)
    requires
        forall|j: int| 0 <= j < p.len() ==> p[j] != b,
    ensures
        last_byte_index(p, b) is None,
    decreases p.len(),
{
    if p.len() > 0 {
        lemma_last_byte_index_absent(p.drop_last(), b);
    }
}

/// Where the final path component begins: right after the last separator.
pub open spec fn component_start(p: Seq<u8>) -> int {
    match last_byte_index(p, SLASH_BYTE) {
        Some(i) => i + 1,
        None => 0,
    }
}

/// The dot that introduces the extension: the last dot of the final
/// component, provided it is not the component's first byte.
pub open spec fn extension_dot(p: Seq<u8>) -> Option<int> {
    match last_byte_index(p, DOT_BYTE) {
        Some(i) => if i > component_start(p) {
            Some(i)
        } else {
            None
        },
        None => None,
    }
}

/// The extension bytes of `p`, if the final component has one.
pub open spec fn extension_of(p: Seq<u8>) -> Option<Seq<u8>> {
    match extension_dot(p) {
        Some(i) => Some(p.subrange(i + 1, p.len() as int)),
        None => None,
    }
}

/// The bytes of the vertex-stage source extension, `vert`.
pub open spec fn vert_extension() -> Seq<u8> {
    seq![118u8, 101u8, 114u8, 116u8]
}

/// The bytes of the fragment-stage source extension, `frag`.
pub open spec fn frag_extension() -> Seq<u8> {
    seq![102u8, 114u8, 97u8, 103u8]
}

/// The bytes of the compiled-binary extension, `spv`.
pub open spec fn binary_extension() -> Seq<u8> {
    seq![115u8, 112u8, 118u8]
}

/// The stage a source name designates, read off its extension.
pub open spec fn stage_of(p: Seq<u8>) -> Option<ShaderStage> {
    match extension_of(p) {
        Some(e) => if e == vert_extension() {
            Some(ShaderStage::Vertex)
        } else if e == frag_extension() {
            Some(ShaderStage::Fragment)
        } else {
            None
        },
        None => None,
    }
}

/// The derived binary location: the source name with its extension
/// replaced by the compiled-binary extension.
pub open spec fn binary_path_of(p: Seq<u8>) -> Seq<u8>
    recommends
        extension_dot(p) is Some,
{
    match extension_dot(p) {
        Some(i) => p.subrange(0, i + 1) + binary_extension(),
        None => p,
    }
}

/// The index of the last occurrence of `b` in `v`, scanning from the end.
fn last_index_of(v: &Vec<u8>, b: u8) -> (r: Option<usize>)
    ensures
        match r {
            Some(i) => i < v@.len() && last_byte_index(v@, b) == Some(i as int),
            None => last_byte_index(v@, b) is None,
        },
{
    let mut i: usize = v.len();
    while i > 0
        invariant
            i <= v.len(),
            forall|j: int| i <= j < v@.len() ==> v@[j] != b,
        decreases i,
    {
        i = i - 1;
        if v[i] == b {
            proof {
                lemma_last_byte_index_found(v@, b, i as int);
            }
            return Some(i);
        }
    }
    proof {
        lemma_last_byte_index_absent(v@, b);
    }
    None
}

/// Resolves a shader's logical identity: derives its stage from the source
/// name's extension and the compiled binary's location from the same name.
/// Succeeds exactly when the extension names a known stage.
pub fn load(
    path: Vec<u8>,
    sampler_count: u32,
    uniform_buffer_count: u32,
    storage_buffer_count: u32,
    storage_texture_count: u32,
) -> (r: Result<ShaderRequest, ShaderError>)
    ensures
        r is Ok <==> stage_of(path@) is Some,
        match r {
            Ok(req) => {
                &&& Some(req.stage) == stage_of(path@)
                &&& req.binary_path@ == binary_path_of(path@)
                &&& req.sampler_count == sampler_count
                &&& req.uniform_buffer_count == uniform_buffer_count
                &&& req.storage_buffer_count == storage_buffer_count
                &&& req.storage_texture_count == storage_texture_count
            },
            Err(e) => e == ShaderError::UnknownStage,
        },
{
    let n = path.len();
    let comp_start: usize = match last_index_of(&path, SLASH_BYTE) {
        Some(i) => i + 1,
        None => 0,
    };
    let dot: usize = match last_index_of(&path, DOT_BYTE) {
        Some(d) => d,
        None => {
            return Err(ShaderError::UnknownStage);
        },
    };
    if dot <= comp_start {
        return Err(ShaderError::UnknownStage);
    }
    let ext_len = n - (dot + 1);
    let stage = if ext_len == 4 && path[dot + 1] == 118 && path[dot + 2] == 101 && path[dot + 3]
        == 114 && path[dot + 4] == 116 {
        proof {
            assert(extension_of(path@) == Some(path@.subrange(dot + 1 as int, path@.len() as int)));
            assert(path@.subrange(dot + 1 as int, path@.len() as int) =~= vert_extension());
        }
        ShaderStage::Vertex
    } else if ext_len == 4 && path[dot + 1] == 102 && path[dot + 2] == 114 && path[dot + 3] == 97
        && path[dot + 4] == 103 {
        proof {
            assert(path@.subrange(dot + 1 as int, path@.len() as int) =~= frag_extension());
        }
        ShaderStage::Fragment
    } else {
        proof {
            let e = path@.subrange(dot + 1 as int, path@.len() as int);
            assert(e != vert_extension() && e != frag_extension()) by {
                if e == vert_extension() {
                    assert(e.len() == 4 && e[0] == 118 && e[1] == 101 && e[2] == 114 && e[3]
                        == 116);
                }
                if e == frag_extension() {
                    assert(e.len() == 4 && e[0] == 102 && e[1] == 114 && e[2] == 97 && e[3] == 103);
                }
            }
        }
        return Err(ShaderError::UnknownStage);
    };
    let mut binary_path: Vec<u8> = Vec::new();
    let mut i: usize = 0;
    while i <= dot
        invariant
            i <= dot + 1,
            dot < usize::MAX,
            dot + 1 <= path@.len(),
            binary_path@ == path@.subrange(0, i as int),
        decreases dot + 1 - i,
    {
        binary_path.push(path[i]);
        proof {
            assert(binary_path@ =~= path@.subrange(0, i + 1 as int));
        }
        i = i + 1;
    }
    binary_path.push(115);
    binary_path.push(112);
    binary_path.push(118);
    proof {
        assert(binary_path@ =~= path@.subrange(0, dot + 1 as int) + binary_extension());
    }
    Ok(
        ShaderRequest {
            stage,
            binary_path,
            sampler_count,
            uniform_buffer_count,
            storage_buffer_count,
            storage_texture_count,
        },
    )
}

/// Pairs a resolved request with the binary blob read back from storage.
/// A missing blob is the fatal "missing compiled shader" case and reports
/// the derived path the binary was expected at.
pub fn create_shader(req: ShaderRequest, code: Option<Vec<u8>>) -> (r: Result<
    ShaderObject,
    ShaderError,
>)
    ensures
        r is Ok <==> code is Some,
        match r {
            Ok(obj) => {
                &&& code matches Some(c) && obj.code@ == c@
                &&& obj.stage == req.stage
                &&& obj.sampler_count == req.sampler_count
                &&& obj.uniform_buffer_count == req.uniform_buffer_count
                &&& obj.storage_buffer_count == req.storage_buffer_count
                &&& obj.storage_texture_count == req.storage_texture_count
            },
            Err(e) => e matches ShaderError::MissingBinary { path } && path@ == req.binary_path@,
        },
{
    match code {
        Some(code) => Ok(
            ShaderObject {
                stage: req.stage,
                code,
                sampler_count: req.sampler_count,
                uniform_buffer_count: req.uniform_buffer_count,
                storage_buffer_count: req.storage_buffer_count,
                storage_texture_count: req.storage_texture_count,
            },
        ),
        None => Err(ShaderError::MissingBinary { path: req.binary_path }),
    }
}

} // verus!
